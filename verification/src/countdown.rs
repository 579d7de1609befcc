//! Countdown cards: identifiers, the requests and actions their windows
//! raise, the container layout orientation, and the text a card shows for
//! the event it counts down to.

use vstd::prelude::*;
use vstd::string::*;
use crate::calendar_date::CalDate;
use crate::text::{trimmed, trim_str, same_chars};

verus! {

/// Identifier of a countdown card.
#[derive(Debug, Clone, Copy, PartialEq, Eq, Hash, Structural)]
pub struct CountdownCardId(pub u64);

/// Identifier of a countdown category.
#[derive(Debug, Clone, Copy, PartialEq, Eq, Hash, Structural)]
pub struct CountdownCategoryId(pub u64);

/// How cards are arranged inside the countdown container.
#[derive(Debug, Clone, Copy, PartialEq, Eq, Structural)]
pub enum LayoutOrientation {
    /// Cards stacked vertically (tall, narrow container).
    Vertical,
    /// Cards side by side (wide container).
    Horizontal,
}

impl Default for LayoutOrientation {
    fn default() -> (r: Self)
        ensures
            r == LayoutOrientation::Vertical,
    {
        LayoutOrientation::Vertical
    }
}

/// What the user asked for on a single card inside the container.
#[derive(Debug, Clone, Copy, PartialEq, Eq, Structural)]
pub enum CardUiAction {
    /// Nothing was asked for.
    NoAction,
    OpenSettings,
    OpenEventDialog,
    GoToDate,
    Delete,
    Refresh,
    ChangeCategory(CountdownCategoryId),
}

/// A request to open the event editor for a card's event; `V` is the
/// card's visual settings, which the editor shows.
#[derive(Debug)]
pub struct OpenEventDialogRequest<V> {
    pub event_id: i64,
    pub card_id: CountdownCardId,
    pub visuals: V,
}

/// A request to show the day of a card's event in the calendar.
#[derive(Debug, Clone, Copy, PartialEq, Eq, Structural)]
pub struct GoToDateRequest {
    pub date: CalDate,
}

/// The requests the card windows raised in a frame.
#[derive(Debug)]
pub struct CountdownRenderResult<V> {
    pub event_dialog_requests: Vec<OpenEventDialogRequest<V>>,
    pub go_to_date_requests: Vec<GoToDateRequest>,
    pub delete_card_requests: Vec<DeleteCardRequest>,
}

impl<V> CountdownRenderResult<V> {
    /// No requests.
    pub fn new() -> (r: Self)
        ensures
            r.event_dialog_requests@.len() == 0,
            r.go_to_date_requests@.len() == 0,
            r.delete_card_requests@.len() == 0,
    {
        CountdownRenderResult {
            event_dialog_requests: Vec::new(),
            go_to_date_requests: Vec::new(),
            delete_card_requests: Vec::new(),
        }
    }
}

/// A request to confirm the deletion of a countdown card.
#[derive(Debug)]
pub struct DeleteCardRequest {
    pub card_id: CountdownCardId,
    pub card_title: String,
}

/// The optional text, trimmed, unless nothing is left of it.
pub open spec fn normalized_spec(value: Option<Seq<char>>) -> Option<Seq<char>> {
    match value {
        Some(t) => if trimmed(t).len() == 0 {
            None
        } else {
            Some(trimmed(t))
        },
        None => None,
    }
}

pub open spec fn text_view(value: Option<String>) -> Option<Seq<char>> {
    match value {
        Some(s) => Some(s@),
        None => None,
    }
}

/// Trims the text and drops it when nothing is left.
pub fn normalized_non_empty(value: Option<String>) -> (r: Option<String>)
    ensures
        text_view(r) == normalized_spec(text_view(value)),
{
    match value {
        Some(text) => {
            let t = trim_str(text.as_str());
            if t.unicode_len() == 0 {
                None
            } else {
                Some(t.to_owned())
            }
        },
        None => None,
    }
}

/// The separator between sections of a card body: an empty line.
pub open spec fn section_break() -> Seq<char> {
    "\n\n"@
}

/// The sections joined by `sep`.
pub open spec fn join_sections(parts: Seq<Seq<char>>, sep: Seq<char>) -> Seq<char>
    decreases parts.len(),
{
    if parts.len() == 0 {
        Seq::empty()
    } else if parts.len() == 1 {
        parts[0]
    } else {
        join_sections(parts.drop_last(), sep) + sep + parts.last()
    }
}

/// One section with `prefix` in front of the text, or none.
pub open spec fn section(prefix: Seq<char>, text: Option<Seq<char>>) -> Seq<Seq<char>> {
    match text {
        Some(t) => seq![prefix + t],
        None => Seq::empty(),
    }
}

/// The sections of a card body: the description, then the location, then
/// the calendar the event was synced from, each when it has text.
pub open spec fn body_sections(
    body: Option<Seq<char>>,
    label: Option<Seq<char>>,
    source: Option<Seq<char>>,
) -> Seq<Seq<char>> {
    let first: Seq<Seq<char>> = match normalized_spec(body) {
        Some(t) => seq![t],
        None => Seq::empty(),
    };
    first + section("Location: "@, normalized_spec(label)) + section(
        "Synced source: "@,
        normalized_spec(source),
    )
}

fn push_section(out: &mut String, first: bool, text: &str, parts: Ghost<Seq<Seq<char>>>)
    requires
        first == (parts@.len() == 0),
        old(out)@ == join_sections(parts@, section_break()),
    ensures
        final(out)@ == join_sections(parts@.push(text@), section_break()),
{
    let ghost p2 = parts@.push(text@);
    assert(p2.drop_last() =~= parts@);
    if first {
        assert(old(out)@ =~= Seq::<char>::empty());
        out.append(text);
        assert(out@ =~= p2[0]);
    } else {
        out.append("\n\n");
        out.append(text);
    }
}

fn prefixed(prefix: &str, text: String) -> (r: String)
    ensures
        r@ == prefix@ + text@,
{
    let mut s = String::from_str(prefix);
    s.append(text.as_str());
    s
}

/// The body text of a countdown card made for an event: its description,
/// its location and the calendar it was synced from, each trimmed, empty
/// ones left out, separated by empty lines; `None` when all are empty.
pub fn compose_countdown_body(
    body: Option<String>,
    display_label: Option<String>,
    sync_source_name: Option<String>,
) -> (r: Option<String>)
    ensures
        ({
            let parts = body_sections(
                text_view(body),
                text_view(display_label),
                text_view(sync_source_name),
            );
            &&& (r is None <==> parts.len() == 0)
            &&& r is Some ==> r->Some_0@ == join_sections(parts, section_break())
        }),
{
    let ghost b = text_view(body);
    let ghost l = text_view(display_label);
    let ghost src = text_view(sync_source_name);
    let mut out = String::new();
    let mut count: usize = 0;
    let ghost mut parts: Seq<Seq<char>> = Seq::empty();
    match normalized_non_empty(body) {
        Some(d) => {
            push_section(&mut out, count == 0, d.as_str(), Ghost(parts));
            proof {
                parts = parts.push(d@);
            }
            count = count + 1;
        },
        None => {},
    }
    assert(parts =~= match normalized_spec(b) {
        Some(t) => seq![t],
        None => Seq::<Seq<char>>::empty(),
    });
    let ghost p1 = parts;
    match normalized_non_empty(display_label) {
        Some(label) => {
            let s = prefixed("Location: ", label);
            push_section(&mut out, count == 0, s.as_str(), Ghost(parts));
            proof {
                parts = parts.push(s@);
            }
            count = count + 1;
        },
        None => {},
    }
    assert(parts =~= p1 + section("Location: "@, normalized_spec(l)));
    let ghost p2 = parts;
    match normalized_non_empty(sync_source_name) {
        Some(name) => {
            let s = prefixed("Synced source: ", name);
            push_section(&mut out, count == 0, s.as_str(), Ghost(parts));
            proof {
                parts = parts.push(s@);
            }
            count = count + 1;
        },
        None => {},
    }
    assert(parts =~= p2 + section("Synced source: "@, normalized_spec(src)));
    assert(parts == body_sections(b, l, src));
    if count == 0 {
        None
    } else {
        Some(out)
    }
}

/// Whether an event's recurrence rule is set: present, not blank, and not
/// the word `None`.
pub fn has_recurrence_rule(rule: Option<&str>) -> (r: bool)
    ensures
        r == match rule {
            Some(s) => trimmed(s@).len() > 0 && trimmed(s@) != "None"@,
            None => false,
        },
{
    match rule {
        Some(s) => {
            let t = trim_str(s);
            t.unicode_len() > 0 && !same_chars(t, "None")
        },
        None => false,
    }
}

/// The event ids of the cards, each once, in the order first seen.
pub open spec fn first_seen(ids: Seq<Option<i64>>) -> Seq<i64>
    decreases ids.len(),
{
    if ids.len() == 0 {
        Seq::empty()
    } else {
        let prev = first_seen(ids.drop_last());
        match ids.last() {
            Some(id) => if prev.contains(id) {
                prev
            } else {
                prev.push(id)
            },
            None => prev,
        }
    }
}

/// The events that the cards count down to, each once, in the order the
/// cards name them first (cards without an event are skipped).
pub fn distinct_event_ids(card_event_ids: &[Option<i64>]) -> (r: Vec<i64>)
    ensures
        r@ == first_seen(card_event_ids@),
{
    let mut out: Vec<i64> = Vec::new();
    let mut i: usize = 0;
    while i < card_event_ids.len()
        invariant
            0 <= i <= card_event_ids@.len(),
            out@ == first_seen(card_event_ids@.subrange(0, i as int)),
        decreases card_event_ids@.len() - i,
    {
        proof {
            assert(card_event_ids@.subrange(0, i as int + 1).drop_last() =~= card_event_ids@.subrange(0, i as int));
        }
        match card_event_ids[i] {
            Some(id) => {
                let mut seen = false;
                let mut j: usize = 0;
                while j < out.len()
                    invariant
                        0 <= j <= out@.len(),
                        seen == exists|k: int| 0 <= k < j && out@[k] == id,
                    decreases out@.len() - j,
                {
                    if out[j] == id {
                        seen = true;
                    }
                    j = j + 1;
                }
                assert(seen == out@.contains(id));
                if !seen {
                    out.push(id);
                }
            },
            None => {},
        }
        i = i + 1;
    }
    assert(card_event_ids@.subrange(0, card_event_ids@.len() as int) =~= card_event_ids@);
    out
}

proof fn lemma_contains_last<T>(s: Seq<T>, v: T)
    requires
        s.len() > 0,
    ensures
        s.contains(v) <==> (s.drop_last().contains(v) || s.last() == v),
{
    if s.contains(v) {
        let k = choose|k: int| 0 <= k < s.len() && s[k] == v;
        if k < s.len() - 1 {
            assert(s.drop_last()[k] == v);
        }
    }
    if s.drop_last().contains(v) {
        let k = choose|k: int| 0 <= k < s.drop_last().len() && s.drop_last()[k] == v;
        assert(s[k] == v);
    }
    if s.last() == v {
        assert(s[s.len() - 1] == v);
    }
}

/// The ids collected from the cards are distinct, and they are exactly
/// the event ids the cards name.
pub proof fn lemma_first_seen_distinct(ids: Seq<Option<i64>>)
    ensures
        forall|a: int, b: int|
            0 <= a < b < first_seen(ids).len() ==> first_seen(ids)[a] != first_seen(ids)[b],
        forall|id: i64| first_seen(ids).contains(id) <==> ids.contains(Some(id)),
    decreases ids.len(),
{
    if ids.len() > 0 {
        let prev = first_seen(ids.drop_last());
        lemma_first_seen_distinct(ids.drop_last());
        assert forall|id: i64| first_seen(ids).contains(id) <==> ids.contains(Some(id)) by {
            lemma_contains_last(ids, Some(id));
            match ids.last() {
                Some(x) => {
                    if !prev.contains(x) {
                        lemma_contains_last(prev.push(x), id);
                        assert(prev.push(x).drop_last() =~= prev);
                    }
                },
                None => {},
            }
        }
    }
}

/// The label a card shows for an event's location: the location trimmed,
/// unless nothing is left of it.
pub fn location_label(location: Option<&str>) -> (r: Option<String>)
    ensures
        text_view(r) == match location {
            Some(l) => normalized_spec(Some(l@)),
            None => None,
        },
{
    match location {
        Some(l) => {
            let t = trim_str(l);
            if t.unicode_len() == 0 {
                None
            } else {
                Some(t.to_owned())
            }
        },
        None => None,
    }
}

/// Frames a new card window stays hidden while its geometry settles.
pub const MAX_PENDING_GEOMETRY_FRAMES: u32 = 120;

/// Frames a sampled geometry must hold still before it is saved.
pub const GEOMETRY_STABILITY_FRAMES: u32 = 4;

/// A card window waiting for its configured geometry (`G`, the caller's
/// geometry type) to take effect.
#[derive(Debug, PartialEq, Eq)]
pub struct PendingGeometryState<G> {
    pub target: G,
    /// Frames waited so far.
    pub attempts: u32,
    /// Gave up waiting: the window is shown anyway.
    pub force_visible: bool,
}

impl<G> PendingGeometryState<G> {
    /// The waiting has not outlasted its limit.
    pub open spec fn wf(&self) -> bool {
        self.force_visible || self.attempts < MAX_PENDING_GEOMETRY_FRAMES
    }

    pub fn new(target: G) -> (r: Self)
        ensures
            r.target == target,
            r.attempts == 0,
            !r.force_visible,
            r.wf(),
    {
        PendingGeometryState { target, attempts: 0, force_visible: false }
    }

    /// One more frame of waiting: whether the window stays hidden. After
    /// the limit of frames it is shown for good.
    pub fn should_hide(&mut self) -> (r: bool)
        requires
            old(self).wf(),
        ensures
            final(self).wf(),
            final(self).target == old(self).target,
            old(self).force_visible ==> !r && *final(self) == *old(self),
            !old(self).force_visible ==> final(self).attempts == old(self).attempts + 1
                && final(self).force_visible == (final(self).attempts >= MAX_PENDING_GEOMETRY_FRAMES)
                && r == !final(self).force_visible,
    {
        if self.force_visible {
            return false;
        }
        self.attempts = self.attempts + 1;
        if self.attempts >= MAX_PENDING_GEOMETRY_FRAMES {
            self.force_visible = true;
            return false;
        }
        true
    }
}

/// The last geometry sampled from a card window and how long it has held.
#[derive(Debug, PartialEq, Eq)]
pub struct GeometrySampleState<G> {
    pub last: G,
    /// Consecutive frames the geometry has held.
    pub stable_frames: u32,
    /// The geometry has been handed on for saving.
    pub delivered: bool,
}

impl<G> GeometrySampleState<G> {
    pub fn new(sample: G) -> (r: Self)
        ensures
            r.last == sample,
            r.stable_frames == 1,
            !r.delivered,
    {
        GeometrySampleState { last: sample, stable_frames: 1, delivered: false }
    }

    /// Takes in this frame's sample: `changed` tells whether it moved away
    /// from the last one, `matches_target` whether its size matches the
    /// geometry being enforced (when one is). Answers whether the
    /// geometry should now be saved: once it has held for the stability
    /// frames, matches the target, and was not saved yet.
    pub fn record(&mut self, sample: G, changed: bool, matches_target: Option<bool>) -> (r: bool)
        ensures
            changed ==> !r && final(self).last == sample && final(self).stable_frames == 1
                && !final(self).delivered,
            !changed && matches_target == Some(false) ==> !r && final(self).stable_frames == 1
                && final(self).last == old(self).last && final(self).delivered == old(self).delivered,
            !changed && matches_target != Some(false) ==> {
                &&& final(self).last == old(self).last
                &&& old(self).stable_frames < GEOMETRY_STABILITY_FRAMES ==> !r
                    && final(self).stable_frames == old(self).stable_frames + 1
                    && final(self).delivered == old(self).delivered
                &&& old(self).stable_frames >= GEOMETRY_STABILITY_FRAMES ==> final(self).stable_frames
                    == old(self).stable_frames && r == !old(self).delivered && final(self).delivered
            },
            r ==> !old(self).delivered && final(self).delivered,
    {
        if changed {
            self.last = sample;
            self.stable_frames = 1;
            self.delivered = false;
            return false;
        }
        match matches_target {
            Some(false) => {
                self.stable_frames = 1;
                return false;
            },
            _ => {},
        }
        if self.stable_frames < GEOMETRY_STABILITY_FRAMES {
            self.stable_frames = self.stable_frames + 1;
            return false;
        }
        if self.delivered {
            return false;
        }
        self.delivered = true;
        true
    }
}

/// What a countdown request needs to know of the stored event it names:
/// its start and end as instants (Unix seconds), the local days they fall
/// on, and its recurrence rule.
#[derive(Debug)]
pub struct StoredEventSpan {
    pub start_ts: i64,
    pub end_ts: i64,
    pub start_day: CalDate,
    pub end_day: CalDate,
    pub recurrence_rule: Option<String>,
}

pub open spec fn rule_set(rule: Option<String>) -> bool {
    match rule {
        Some(r) => trimmed(r@).len() > 0 && trimmed(r@) != "None"@,
        None => false,
    }
}

/// The span a countdown card covers: the stored event's own span when it
/// is a single (non-recurring) event over several days, otherwise the
/// requested occurrence's.
pub fn effective_span(requested: (i64, i64), stored: Option<&StoredEventSpan>) -> (r: (i64, i64))
    ensures
        r == match stored {
            Some(e) => if !rule_set(e.recurrence_rule) && e.start_day != e.end_day {
                (e.start_ts, e.end_ts)
            } else {
                requested
            },
            None => requested,
        },
{
    match stored {
        Some(e) => {
            let rule: Option<&str> = match &e.recurrence_rule {
                Some(r) => Some(r.as_str()),
                None => None,
            };
            if !has_recurrence_rule(rule) && e.start_day != e.end_day {
                (e.start_ts, e.end_ts)
            } else {
                requested
            }
        },
        None => requested,
    }
}

/// The instant a countdown counts down to: the start while it is ahead,
/// then the end while that is ahead; `None` for an event that is over.
pub fn countdown_target(start: i64, end: i64, now: i64) -> (r: Option<i64>)
    ensures
        r == if start > now {
            Some(start)
        } else if end > now {
            Some(end)
        } else {
            None::<i64>
        },
{
    if start > now {
        Some(start)
    } else if end > now {
        Some(end)
    } else {
        None
    }
}

/// The title override a card's settings store for the title typed in:
/// none when the trimmed text is empty or is the event's own title,
/// otherwise the trimmed text.
pub fn title_override_payload(input: &str, event_title: &str) -> (r: Option<String>)
    ensures
        text_view(r) == if trimmed(input@).len() == 0 || trimmed(input@) == event_title@ {
            None::<Seq<char>>
        } else {
            Some(trimmed(input@))
        },
{
    let t = trim_str(input);
    if t.unicode_len() == 0 || same_chars(t, event_title) {
        None
    } else {
        Some(t.to_owned())
    }
}

/// The comment a card's settings store for the text typed in: none when it
/// is blank, otherwise the text as typed.
pub fn comment_payload(input: &str) -> (r: Option<String>)
    ensures
        text_view(r) == if trimmed(input@).len() == 0 {
            None::<Seq<char>>
        } else {
            Some(input@)
        },
{
    if trim_str(input).unicode_len() == 0 {
        None
    } else {
        Some(input.to_owned())
    }
}

/// What the application does for an action raised in a card's window.
#[derive(Debug)]
pub enum CardActionEffect<V> {
    /// Nothing to do.
    Nothing,
    /// Ask to confirm deleting the card.
    ConfirmDelete(DeleteCardRequest),
    /// Open the card's settings window.
    OpenSettings(CountdownCardId),
    /// Open the event editor for the card's event.
    OpenEventDialog(OpenEventDialogRequest<V>),
    /// Show the day of the card's event in the calendar.
    GoToDate(GoToDateRequest),
    /// Draw again.
    Repaint,
    /// Move the card to another category.
    ChangeCategory(CountdownCardId, CountdownCategoryId),
}

/// The effect of `action` raised in the window of card `card_id`, whose
/// event is `event_id` (if any), titled `event_title`, starting on
/// `start_date`, shown with `visuals`. Asking for the event editor of a
/// card without an event opens its settings instead.
pub fn card_action_effect<V>(
    action: CardUiAction,
    card_id: CountdownCardId,
    event_id: Option<i64>,
    event_title: &String,
    start_date: CalDate,
    visuals: V,
) -> (r: CardActionEffect<V>)
    ensures
        action is NoAction ==> r is Nothing,
        action is Delete ==> r is ConfirmDelete && r->ConfirmDelete_0.card_id == card_id
            && r->ConfirmDelete_0.card_title@ == event_title@,
        action is OpenSettings ==> r == CardActionEffect::<V>::OpenSettings(card_id),
        action is OpenEventDialog && event_id is Some ==> r == CardActionEffect::OpenEventDialog(
            OpenEventDialogRequest { event_id: event_id->Some_0, card_id, visuals },
        ),
        action is OpenEventDialog && event_id is None ==> r == CardActionEffect::<V>::OpenSettings(card_id),
        action is GoToDate ==> r == CardActionEffect::<V>::GoToDate(GoToDateRequest { date: start_date }),
        action is Refresh ==> r is Repaint,
        action is ChangeCategory ==> r == CardActionEffect::<V>::ChangeCategory(card_id, action->ChangeCategory_0),
{
    match action {
        CardUiAction::NoAction => CardActionEffect::Nothing,
        CardUiAction::Delete => CardActionEffect::ConfirmDelete(
            DeleteCardRequest { card_id, card_title: event_title.clone() },
        ),
        CardUiAction::OpenSettings => CardActionEffect::OpenSettings(card_id),
        CardUiAction::OpenEventDialog => match event_id {
            Some(id) => CardActionEffect::OpenEventDialog(OpenEventDialogRequest { event_id: id, card_id, visuals }),
            None => CardActionEffect::OpenSettings(card_id),
        },
        CardUiAction::GoToDate => CardActionEffect::GoToDate(GoToDateRequest { date: start_date }),
        CardUiAction::Refresh => CardActionEffect::Repaint,
        CardUiAction::ChangeCategory(c) => CardActionEffect::ChangeCategory(card_id, c),
    }
}

} // verus!
