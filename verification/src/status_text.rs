//! Short texts about time left: the status bar's "next event" duration and
//! the desktop notifications a countdown card raises as its event nears.

use vstd::prelude::*;
use vstd::string::*;
use crate::countdown::CountdownCardId;
use crate::text::{ascii_chars, decimal_bytes, push_decimal};

verus! {

/// Decimal text of a natural number.
pub open spec fn dec(n: nat) -> Seq<char> {
    ascii_chars(decimal_bytes(n))
}

/// Decimal text of an integer, with a minus sign when negative.
pub open spec fn signed_dec(n: int) -> Seq<char> {
    if n < 0 {
        "-"@ + dec((-n) as nat)
    } else {
        dec(n as nat)
    }
}

/// Quotient rounded toward zero, as Rust's integer `/` computes it.
pub open spec fn trunc_div(a: int, b: int) -> int {
    if a >= 0 {
        a / b
    } else {
        -((-a) / b)
    }
}

/// Remainder with the sign of the dividend, as Rust's integer `%` computes it.
pub open spec fn trunc_rem(a: int, b: int) -> int {
    a - b * trunc_div(a, b)
}

fn trunc_div_i64(a: i64, b: i64) -> (r: i64)
    requires
        b >= 2,
    ensures
        r == trunc_div(a as int, b as int),
{
    if a >= 0 {
        ((a as u64) / (b as u64)) as i64
    } else {
        let p: u64 = (-(a as i128)) as u64;
        let q: u64 = p / (b as u64);
        assert(q <= p / 2) by {
            vstd::arithmetic::div_mod::lemma_div_is_ordered_by_denominator(p as int, 2, b as int);
        }
        -(q as i64)
    }
}

pub fn push_signed(s: &mut String, n: i64)
    ensures
        final(s)@ == old(s)@ + signed_dec(n as int),
{
    if n < 0 {
        s.append("-");
        push_decimal(s, (-(n as i128)) as u64);
    } else {
        push_decimal(s, n as u64);
    }
}

/// The text of `format_duration_short`, for a duration of `t` seconds.
pub open spec fn duration_short_text(t: int) -> Seq<char> {
    if t < 0 {
        "now"@
    } else {
        let days = t / 86400;
        let hours = (t % 86400) / 3600;
        let minutes = (t % 3600) / 60;
        if days > 0 {
            if hours > 0 {
                dec(days as nat) + "d "@ + dec(hours as nat) + "h"@
            } else {
                dec(days as nat) + "d"@
            }
        } else if hours > 0 {
            if minutes > 0 {
                dec(hours as nat) + "h "@ + dec(minutes as nat) + "m"@
            } else {
                dec(hours as nat) + "h"@
            }
        } else if minutes > 0 {
            dec(minutes as nat) + "m"@
        } else {
            "< 1m"@
        }
    }
}

/// A duration of `total_seconds` whole seconds in its two largest units:
/// "2d 3h", "5h", "1h 20m", "45m"; "< 1m" under a minute and "now" when
/// it is negative.
pub fn format_duration_short(total_seconds: i64) -> (r: String)
    ensures
        r@ == duration_short_text(total_seconds as int),
{
    if total_seconds < 0 {
        return String::from_str("now");
    }
    let t = total_seconds as u64;
    let days = t / 86400;
    let hours = (t % 86400) / 3600;
    let minutes = (t % 3600) / 60;
    let mut s = String::new();
    if days > 0 {
        push_decimal(&mut s, days);
        if hours > 0 {
            s.append("d ");
            push_decimal(&mut s, hours);
            s.append("h");
        } else {
            s.append("d");
        }
    } else if hours > 0 {
        push_decimal(&mut s, hours);
        if minutes > 0 {
            s.append("h ");
            push_decimal(&mut s, minutes);
            s.append("m");
        } else {
            s.append("h");
        }
    } else if minutes > 0 {
        push_decimal(&mut s, minutes);
        s.append("m");
    } else {
        return String::from_str("< 1m");
    }
    s
}

/// How close a countdown's event is, as the countdown service grades it.
#[derive(Debug, Clone, Copy, PartialEq, Eq, Structural)]
pub enum CountdownWarningState {
    Normal,
    Approaching,
    Imminent,
    Critical,
    Starting,
}

/// How insistently a desktop notification is shown.
#[derive(Debug, Clone, Copy, PartialEq, Eq, Structural)]
pub enum NotificationUrgency {
    Normal,
    Critical,
}

/// "s" unless the count is exactly one.
pub open spec fn plural(n: int) -> Seq<char> {
    if n == 1 {
        Seq::empty()
    } else {
        "s"@
    }
}

fn push_plural(s: &mut String, n: i64)
    ensures
        final(s)@ == old(s)@ + plural(n as int),
{
    if n != 1 {
        s.append("s");
    } else {
        assert(old(s)@ + plural(n as int) =~= old(s)@);
    }
}

/// "Starting in N minute(s)".
pub open spec fn minutes_text(m: int) -> Seq<char> {
    "Starting in "@ + signed_dec(m) + " minute"@ + plural(m)
}

/// The notification for a countdown entering `state` when its event starts
/// `secs` seconds from now, with its urgency.
pub open spec fn notification_spec(state: CountdownWarningState, secs: int) -> (
    Seq<char>,
    NotificationUrgency,
) {
    let minutes = trunc_div(secs, 60);
    let hours = trunc_div(secs, 3600);
    match state {
        CountdownWarningState::Critical => (
            if minutes > 0 {
                minutes_text(minutes)
            } else {
                "Starting very soon!"@
            },
            NotificationUrgency::Critical,
        ),
        CountdownWarningState::Imminent => {
            let m = trunc_rem(minutes, 60);
            (
                if hours > 0 {
                    "Starting in "@ + signed_dec(hours) + " hour"@ + plural(hours) + " "@
                        + signed_dec(m) + " minute"@ + plural(m)
                } else {
                    minutes_text(m)
                },
                NotificationUrgency::Critical,
            )
        },
        CountdownWarningState::Approaching => (
            "Starting in "@ + signed_dec(hours) + " hour"@ + plural(hours),
            NotificationUrgency::Normal,
        ),
        CountdownWarningState::Starting => ("Event is starting now!"@, NotificationUrgency::Critical),
        CountdownWarningState::Normal => ("Event approaching"@, NotificationUrgency::Normal),
    }
}

fn push_count(s: &mut String, n: i64, unit: &str)
    ensures
        final(s)@ == old(s)@ + signed_dec(n as int) + unit@ + plural(n as int),
{
    push_signed(s, n);
    s.append(unit);
    push_plural(s, n);
}

/// The text and urgency of the notification shown when a countdown enters
/// `state`, its event starting `remaining_seconds` from now (negative when
/// it has started).
pub fn notification_message_for_state(state: CountdownWarningState, remaining_seconds: i64) -> (r: (
    String,
    NotificationUrgency,
))
    ensures
        r.0@ == notification_spec(state, remaining_seconds as int).0,
        r.1 == notification_spec(state, remaining_seconds as int).1,
{
    let minutes = trunc_div_i64(remaining_seconds, 60);
    let hours = trunc_div_i64(remaining_seconds, 3600);
    match state {
        CountdownWarningState::Critical => {
            if minutes > 0 {
                let mut s = String::from_str("Starting in ");
                push_count(&mut s, minutes, " minute");
                (s, NotificationUrgency::Critical)
            } else {
                (String::from_str("Starting very soon!"), NotificationUrgency::Critical)
            }
        },
        CountdownWarningState::Imminent => {
            let q = trunc_div_i64(minutes, 60);
            let m = minutes - 60 * q;
            let mut s = String::from_str("Starting in ");
            if hours > 0 {
                push_count(&mut s, hours, " hour");
                s.append(" ");
            }
            push_count(&mut s, m, " minute");
            (s, NotificationUrgency::Critical)
        },
        CountdownWarningState::Approaching => {
            let mut s = String::from_str("Starting in ");
            push_count(&mut s, hours, " hour");
            (s, NotificationUrgency::Normal)
        },
        CountdownWarningState::Starting => (
            String::from_str("Event is starting now!"),
            NotificationUrgency::Critical,
        ),
        CountdownWarningState::Normal => (
            String::from_str("Event approaching"),
            NotificationUrgency::Normal,
        ),
    }
}

/// A countdown card that entered a new warning state.
#[derive(Debug, Clone, Copy, PartialEq, Eq, Structural)]
pub struct NotificationTrigger {
    pub card_id: CountdownCardId,
    pub new_state: CountdownWarningState,
}

/// What a notification needs to know of a card: its shown title and the
/// seconds until its event starts.
#[derive(Debug)]
pub struct CardNotice {
    pub card_id: CountdownCardId,
    pub title: String,
    pub remaining_seconds: i64,
}

/// A desktop notification to show.
#[derive(Debug)]
pub struct Notification {
    pub title: String,
    pub message: String,
    pub urgency: NotificationUrgency,
}

/// Index of the first card with the id, or the number of cards.
pub open spec fn card_index(cards: Seq<CardNotice>, id: CountdownCardId) -> int
    decreases cards.len(),
{
    if cards.len() == 0 {
        0
    } else if cards[0].card_id == id {
        0
    } else {
        1 + card_index(cards.drop_first(), id)
    }
}

proof fn lemma_card_index_first(cards: Seq<CardNotice>, id: CountdownCardId, i: int)
    requires
        0 <= i <= cards.len(),
        i < cards.len() ==> cards[i].card_id == id,
        forall|k: int| 0 <= k < i ==> cards[k].card_id != id,
    ensures
        card_index(cards, id) == i,
    decreases cards.len(),
{
    if cards.len() > 0 && i > 0 {
        assert forall|k: int| 0 <= k < i - 1 implies cards.drop_first()[k].card_id != id by {
            assert(cards.drop_first()[k] == cards[k + 1]);
        }
        lemma_card_index_first(cards.drop_first(), id, i - 1);
    }
}

/// The notifications for the triggers, in order: one for each trigger
/// whose card is known (the first card with its id), none at all when
/// system notifications are off.
pub open spec fn notifications_spec(
    triggers: Seq<NotificationTrigger>,
    cards: Seq<CardNotice>,
    enabled: bool,
) -> Seq<(Seq<char>, Seq<char>, NotificationUrgency)>
    decreases triggers.len(),
{
    if !enabled || triggers.len() == 0 {
        Seq::empty()
    } else {
        let prev = notifications_spec(triggers.drop_last(), cards, enabled);
        let t = triggers.last();
        let i = card_index(cards, t.card_id);
        if i < cards.len() {
            let (m, u) = notification_spec(t.new_state, cards[i].remaining_seconds as int);
            prev.push((cards[i].title@, m, u))
        } else {
            prev
        }
    }
}

pub open spec fn notification_views(n: Seq<Notification>) -> Seq<(Seq<char>, Seq<char>, NotificationUrgency)> {
    n.map_values(|x: Notification| (x.title@, x.message@, x.urgency))
}

fn find_card(cards: &[CardNotice], id: CountdownCardId) -> (r: usize)
    ensures
        r == card_index(cards@, id),
        r <= cards@.len(),
{
    let mut i: usize = 0;
    while i < cards.len()
        invariant
            0 <= i <= cards@.len(),
            forall|k: int| 0 <= k < i ==> cards@[k].card_id != id,
        decreases cards@.len() - i,
    {
        if cards[i].card_id == id {
            proof {
                lemma_card_index_first(cards@, id, i as int);
            }
            return i;
        }
        i = i + 1;
    }
    proof {
        lemma_card_index_first(cards@, id, i as int);
    }
    i
}

/// The desktop notifications to show for the cards that changed warning
/// state (none when system notifications are switched off).
pub fn notifications_for(
    triggers: &[NotificationTrigger],
    cards: &[CardNotice],
    use_system_notifications: bool,
) -> (r: Vec<Notification>)
    ensures
        notification_views(r@) == notifications_spec(triggers@, cards@, use_system_notifications),
{
    let mut out: Vec<Notification> = Vec::new();
    if !use_system_notifications {
        assert(notification_views(out@) =~= notifications_spec(triggers@, cards@, false));
        return out;
    }
    let mut j: usize = 0;
    while j < triggers.len()
        invariant
            0 <= j <= triggers@.len(),
            use_system_notifications,
            notification_views(out@) == notifications_spec(triggers@.subrange(0, j as int), cards@, true),
        decreases triggers@.len() - j,
    {
        proof {
            assert(triggers@.subrange(0, j as int + 1).drop_last() =~= triggers@.subrange(0, j as int));
        }
        let t = triggers[j];
        let i = find_card(cards, t.card_id);
        if i < cards.len() {
            let (message, urgency) = notification_message_for_state(t.new_state, cards[i].remaining_seconds);
            let n = Notification { title: cards[i].title.clone(), message, urgency };
            let ghost before = out@;
            out.push(n);
            assert(notification_views(out@) =~= notification_views(before).push((n.title@, n.message@, n.urgency)));
        }
        j = j + 1;
    }
    assert(triggers@.subrange(0, triggers@.len() as int) =~= triggers@);
    out
}

} // verus!
