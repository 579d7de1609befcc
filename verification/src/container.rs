//! The countdown container: the order of its cards and dragging a card to
//! a new place. Positions and geometry are the application's (floating
//! point) and are carried as they come (`P`, `G`).

use vstd::prelude::*;
use crate::calendar_date::CalDate;
use crate::countdown::CountdownCardId;

verus! {

/// What the user asked for inside the container.
#[derive(Debug)]
pub enum ContainerAction<G> {
    /// Nothing was asked for.
    NoAction,
    /// Show the cards in this order.
    ReorderCards(Vec<CountdownCardId>),
    DeleteCard(CountdownCardId),
    OpenSettings(CountdownCardId),
    OpenEventDialog(CountdownCardId),
    /// Show this date in the calendar.
    GoToDate(CalDate),
    RefreshCard(CountdownCardId),
    /// The container window moved or was resized.
    GeometryChanged(G),
    /// The container window was closed.
    Closed,
}

impl<G> Default for ContainerAction<G> {
    fn default() -> (r: Self)
        ensures
            r is NoAction,
    {
        ContainerAction::NoAction
    }
}

/// A card being dragged inside the container.
#[derive(Debug)]
pub struct ContainerDragState<P> {
    /// The card being dragged, if any.
    pub dragging_card: Option<CountdownCardId>,
    /// Where the drag started.
    pub drag_start_pos: Option<P>,
    /// Where the pointer is now.
    pub current_drag_pos: Option<P>,
    /// Where the card would be inserted if dropped now.
    pub insert_index: Option<usize>,
}

impl<P> Default for ContainerDragState<P> {
    fn default() -> (r: Self)
        ensures
            r.dragging_card is None,
            r.drag_start_pos is None,
            r.current_drag_pos is None,
            r.insert_index is None,
    {
        ContainerDragState { dragging_card: None, drag_start_pos: None, current_drag_pos: None, insert_index: None }
    }
}

impl<P: Copy> ContainerDragState<P> {
    /// Starts dragging `card_id` from `pos`.
    pub fn start_drag(&mut self, card_id: CountdownCardId, pos: P)
        ensures
            final(self).dragging_card == Some(card_id),
            final(self).drag_start_pos == Some(pos),
            final(self).current_drag_pos == Some(pos),
            final(self).insert_index is None,
    {
        self.dragging_card = Some(card_id);
        self.drag_start_pos = Some(pos);
        self.current_drag_pos = Some(pos);
        self.insert_index = None;
    }
}

impl<P> ContainerDragState<P> {
    /// The pointer moved to `pos`.
    pub fn update_drag(&mut self, pos: P)
        ensures
            final(self).current_drag_pos == Some(pos),
            final(self).dragging_card == old(self).dragging_card,
            final(self).drag_start_pos == old(self).drag_start_pos,
            final(self).insert_index == old(self).insert_index,
    {
        self.current_drag_pos = Some(pos);
    }

    /// Ends the drag, answering the card that was dragged; everything is
    /// cleared, the insertion index too.
    pub fn end_drag(&mut self) -> (r: Option<CountdownCardId>)
        ensures
            r == old(self).dragging_card,
            final(self).dragging_card is None,
            final(self).drag_start_pos is None,
            final(self).current_drag_pos is None,
            final(self).insert_index is None,
    {
        let card = self.dragging_card;
        self.dragging_card = None;
        self.drag_start_pos = None;
        self.current_drag_pos = None;
        self.insert_index = None;
        card
    }

    pub fn is_dragging(&self) -> (r: bool)
        ensures
            r == self.dragging_card is Some,
    {
        self.dragging_card.is_some()
    }

    pub fn is_dragging_card(&self, card_id: CountdownCardId) -> (r: bool)
        ensures
            r == (self.dragging_card == Some(card_id)),
    {
        match self.dragging_card {
            Some(c) => c == card_id,
            None => false,
        }
    }
}

/// The ids of `order` that name a card, in their order.
pub open spec fn known_ids(order: Seq<CountdownCardId>, cards: Seq<CountdownCardId>) -> Seq<CountdownCardId>
    decreases order.len(),
{
    if order.len() == 0 {
        Seq::empty()
    } else {
        let rest = known_ids(order.drop_last(), cards);
        if cards.contains(order.last()) {
            rest.push(order.last())
        } else {
            rest
        }
    }
}

/// `acc` followed by the ids of `cards` it lacks, each once, in card order.
pub open spec fn append_missing(acc: Seq<CountdownCardId>, cards: Seq<CountdownCardId>) -> Seq<CountdownCardId>
    decreases cards.len(),
{
    if cards.len() == 0 {
        acc
    } else {
        let next = if acc.contains(cards[0]) {
            acc
        } else {
            acc.push(cards[0])
        };
        append_missing(next, cards.drop_first())
    }
}

/// The order the container shows its cards in: the cards' own order when
/// no order was saved; otherwise the saved order without ids of cards that
/// are gone, followed by the cards it does not name.
pub open spec fn card_display_order(order: Seq<CountdownCardId>, cards: Seq<CountdownCardId>) -> Seq<CountdownCardId> {
    if order.len() == 0 {
        cards
    } else {
        append_missing(known_ids(order, cards), cards)
    }
}

/// Whether `v` holds `id`.
fn holds_id(v: &Vec<CountdownCardId>, id: CountdownCardId) -> (r: bool)
    ensures
        r == v@.contains(id),
{
    let mut i: usize = 0;
    while i < v.len()
        invariant
            0 <= i <= v@.len(),
            forall|k: int| 0 <= k < i ==> v@[k] != id,
        decreases v@.len() - i,
    {
        if v[i] == id {
            assert(v@[i as int] == id);
            return true;
        }
        i = i + 1;
    }
    false
}

/// The order the container shows its cards in (`card_display_order`).
pub fn ordered_card_ids(order: &Vec<CountdownCardId>, cards: &Vec<CountdownCardId>) -> (r: Vec<CountdownCardId>)
    ensures
        r@ == card_display_order(order@, cards@),
{
    if order.len() == 0 {
        let mut all: Vec<CountdownCardId> = Vec::new();
        let mut j: usize = 0;
        while j < cards.len()
            invariant
                0 <= j <= cards@.len(),
                all@ == cards@.take(j as int),
            decreases cards@.len() - j,
        {
            all.push(cards[j]);
            j = j + 1;
            assert(all@ =~= cards@.take(j as int));
        }
        assert(cards@.take(cards@.len() as int) =~= cards@);
        return all;
    }
    let mut ids: Vec<CountdownCardId> = Vec::new();
    let mut i: usize = 0;
    while i < order.len()
        invariant
            0 <= i <= order@.len(),
            ids@ == known_ids(order@.take(i as int), cards@),
        decreases order@.len() - i,
    {
        let id = order[i];
        assert(order@.take(i + 1).drop_last() =~= order@.take(i as int));
        assert(order@.take(i + 1).last() == id);
        if holds_id(cards, id) {
            ids.push(id);
        }
        i = i + 1;
    }
    assert(order@.take(order@.len() as int) =~= order@);
    assert(ids@ == known_ids(order@, cards@));
    assert(cards@.skip(0) =~= cards@);
    let mut j: usize = 0;
    while j < cards.len()
        invariant
            0 <= j <= cards@.len(),
            append_missing(ids@, cards@.skip(j as int)) == append_missing(
                known_ids(order@, cards@),
                cards@,
            ),
        decreases cards@.len() - j,
    {
        let id = cards[j];
        assert(cards@.skip(j as int).drop_first() =~= cards@.skip(j + 1));
        assert(cards@.skip(j as int)[0] == id);
        if !holds_id(&ids, id) {
            ids.push(id);
        }
        j = j + 1;
    }
    assert(cards@.skip(cards@.len() as int) =~= Seq::<CountdownCardId>::empty());
    assert(cards@.skip(0) =~= cards@);
    ids
}

/// Index of the first `id` in `s`, or its length.
pub open spec fn first_index_of(s: Seq<CountdownCardId>, id: CountdownCardId) -> int
    decreases s.len(),
{
    if s.len() == 0 {
        0
    } else if s[0] == id {
        0
    } else {
        1 + first_index_of(s.drop_first(), id)
    }
}

proof fn lemma_first_index_of(s: Seq<CountdownCardId>, id: CountdownCardId, i: int)
    requires
        0 <= i <= s.len(),
        i < s.len() ==> s[i] == id,
        forall|k: int| 0 <= k < i ==> s[k] != id,
    ensures
        first_index_of(s, id) == i,
    decreases s.len(),
{
    if s.len() > 0 && i > 0 {
        assert forall|k: int| 0 <= k < i - 1 implies s.drop_first()[k] != id by {
            assert(s.drop_first()[k] == s[k + 1]);
        }
        lemma_first_index_of(s.drop_first(), id, i - 1);
    }
}

/// The order after dropping the card `dragged` at insertion index
/// `insert` of `ordered`: it leaves its place and goes in before the card
/// that was at `insert` (at the end when `insert` is past the last card).
pub open spec fn order_after_drop(ordered: Seq<CountdownCardId>, p: int, insert: int) -> Seq<CountdownCardId> {
    let rest = ordered.remove(p);
    let adjusted = if insert > p {
        insert - 1
    } else {
        insert
    };
    let at = if adjusted < rest.len() {
        adjusted
    } else {
        rest.len() as int
    };
    rest.insert(at, ordered[p])
}

/// Where a dropped card lands: dropped at insertion index `insert` (the
/// gap before the card that was at `insert`, or after the last card), a
/// card at position `p` of `ordered` ends up just before the card that was
/// at `insert` when that is a different card, keeps its place when
/// dropped next to itself, and goes last when dropped past the end. The
/// other cards keep their order: taking the dropped card out of both
/// orders gives the same sequence, and cards before both the old and the
/// new place keep their positions.
pub proof fn lemma_drop_places_card(ordered: Seq<CountdownCardId>, p: int, insert: int)
    requires
        0 <= p < ordered.len(),
        0 <= insert,
    ensures
        ({
            let r = order_after_drop(ordered, p, insert);
            &&& r.len() == ordered.len()
            &&& insert <= p ==> r[insert] == ordered[p] && r.remove(insert) == ordered.remove(p)
            &&& p < insert < ordered.len() ==> r[insert - 1] == ordered[p] && r[insert] == ordered[insert]
                && r.remove(insert - 1) == ordered.remove(p)
            &&& insert >= ordered.len() ==> r[r.len() - 1] == ordered[p] && r.remove(r.len() - 1)
                == ordered.remove(p)
            &&& forall|j: int| 0 <= j < insert && j < p ==> r[j] == ordered[j]
            &&& forall|j: int| p < j < ordered.len() && insert <= j ==> r[j] == ordered[j]
        }),
{
    let r = order_after_drop(ordered, p, insert);
    let rest = ordered.remove(p);
    let adjusted = if insert > p { insert - 1 } else { insert };
    let at = if adjusted < rest.len() { adjusted } else { rest.len() as int };
    assert(r == rest.insert(at, ordered[p]));
    assert(r.remove(at) =~= rest);
    if insert <= p {
        assert(at == insert);
    } else if insert < ordered.len() {
        assert(at == insert - 1);
        assert(r[insert] == rest[insert - 1]);
        assert(rest[insert - 1] == ordered[insert]);
    } else {
        assert(at == rest.len());
    }
    assert forall|j: int| 0 <= j < insert && j < p implies r[j] == ordered[j] by {
        assert(j < at);
        assert(r[j] == rest[j]);
    }
    assert forall|j: int| p < j < ordered.len() && insert <= j implies r[j] == ordered[j] by {
        assert(j > at);
        assert(r[j] == rest[j - 1]);
    }
}

/// The new order when `dragged` is dropped at insertion index `insert` of
/// `ordered`; `None` when the card is not in the order.
pub fn reorder_after_drop(ordered: &Vec<CountdownCardId>, dragged: CountdownCardId, insert: usize) -> (r:
    Option<Vec<CountdownCardId>>)
    ensures
        first_index_of(ordered@, dragged) == ordered@.len() ==> r is None,
        first_index_of(ordered@, dragged) < ordered@.len() ==> r is Some && r->Some_0@ == order_after_drop(
            ordered@,
            first_index_of(ordered@, dragged),
            insert as int,
        ),
        r is Some ==> r->Some_0@.len() == ordered@.len(),
        r is Some && insert <= first_index_of(ordered@, dragged) ==> r->Some_0@[insert as int] == dragged,
        r is Some && first_index_of(ordered@, dragged) < insert < ordered@.len() ==> r->Some_0@[insert - 1]
            == dragged && r->Some_0@[insert as int] == ordered@[insert as int],
        r is Some && insert >= ordered@.len() ==> r->Some_0@.last() == dragged,
{
    let mut p: usize = 0;
    while p < ordered.len() && ordered[p] != dragged
        invariant
            0 <= p <= ordered@.len(),
            forall|k: int| 0 <= k < p ==> ordered@[k] != dragged,
        decreases ordered@.len() - p,
    {
        p = p + 1;
    }
    proof {
        lemma_first_index_of(ordered@, dragged, p as int);
        if p < ordered.len() {
            lemma_drop_places_card(ordered@, p as int, insert as int);
        }
    }
    if p == ordered.len() {
        return None;
    }
    let mut new_order: Vec<CountdownCardId> = Vec::new();
    let mut k: usize = 0;
    while k < ordered.len()
        invariant
            0 <= p < ordered@.len(),
            0 <= k <= ordered@.len(),
            ordered@[p as int] == dragged,
            k <= p ==> new_order@ == ordered@.take(k as int),
            k > p ==> new_order@ == ordered@.take(k as int).remove(p as int),
        decreases ordered@.len() - k,
    {
        if k != p {
            new_order.push(ordered[k]);
        }
        k = k + 1;
        assert(k <= p ==> new_order@ =~= ordered@.take(k as int));
        assert(k > p ==> new_order@ =~= ordered@.take(k as int).remove(p as int));
    }
    assert(ordered@.take(ordered@.len() as int) =~= ordered@);
    let adjusted: usize = if insert > p {
        insert - 1
    } else {
        insert
    };
    let at: usize = if adjusted < new_order.len() {
        adjusted
    } else {
        new_order.len()
    };
    new_order.insert(at, dragged);
    Some(new_order)
}

} // verus!
