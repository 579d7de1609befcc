//! Keyboard shortcuts of the main window: which actions a frame's key
//! presses ask for, given which dialogs are open.

use vstd::prelude::*;
use crate::views::{NavDirection, ViewType};

verus! {

/// The keys pressed in a frame.
#[derive(Debug, Clone, Copy, PartialEq, Eq, Structural)]
pub struct ShortcutKeys {
    pub escape: bool,
    pub n: bool,
    pub f: bool,
    pub t: bool,
    pub s: bool,
    pub b: bool,
    pub z: bool,
    pub y: bool,
    pub backslash: bool,
    pub d: bool,
    pub w: bool,
    pub k: bool,
    pub m: bool,
    pub left: bool,
    pub right: bool,
    pub up: bool,
    pub down: bool,
}

/// Modifier keys held in the frame.
#[derive(Debug, Clone, Copy, PartialEq, Eq, Structural)]
pub struct ShortcutModifiers {
    pub ctrl: bool,
    pub shift: bool,
}

/// Which dialogs are open.
#[derive(Debug, Clone, Copy, PartialEq, Eq, Structural)]
pub struct OpenDialogs {
    pub event_dialog: bool,
    pub settings: bool,
    pub search: bool,
    pub theme: bool,
    pub date_picker: bool,
    pub template_manager: bool,
    pub export_range: bool,
}

/// What a shortcut asks the application to do.
#[derive(Debug, Clone, Copy, PartialEq, Eq, Structural)]
pub enum ShortcutAction {
    CloseEventDialog,
    CloseSettings,
    CloseSearch,
    CloseThemeDialog,
    CloseDatePicker,
    CloseTemplateManager,
    /// Open the event editor for a new event on the current day.
    NewEvent,
    OpenSearch,
    JumpToToday,
    OpenSettings,
    CreateBackup,
    Undo,
    Redo,
    ToggleSidebar,
    SetView(ViewType),
    /// Scroll the timed views to the current time.
    FocusCurrentTime,
    Navigate(NavDirection),
}

/// What Escape closes: the first open dialog in the order the event
/// editor, settings, search, theme, date picker, template manager.
pub open spec fn escape_actions(keys: ShortcutKeys, d: OpenDialogs) -> Seq<ShortcutAction> {
    if !keys.escape {
        Seq::empty()
    } else if d.event_dialog {
        seq![ShortcutAction::CloseEventDialog]
    } else if d.settings {
        seq![ShortcutAction::CloseSettings]
    } else if d.search {
        seq![ShortcutAction::CloseSearch]
    } else if d.theme {
        seq![ShortcutAction::CloseThemeDialog]
    } else if d.date_picker {
        seq![ShortcutAction::CloseDatePicker]
    } else if d.template_manager {
        seq![ShortcutAction::CloseTemplateManager]
    } else {
        Seq::empty()
    }
}

/// The dialogs still open after Escape.
pub open spec fn after_escape(keys: ShortcutKeys, d: OpenDialogs) -> OpenDialogs {
    if !keys.escape {
        d
    } else if d.event_dialog {
        OpenDialogs { event_dialog: false, ..d }
    } else if d.settings {
        OpenDialogs { settings: false, ..d }
    } else if d.search {
        OpenDialogs { search: false, ..d }
    } else if d.theme {
        OpenDialogs { theme: false, ..d }
    } else if d.date_picker {
        OpenDialogs { date_picker: false, ..d }
    } else if d.template_manager {
        OpenDialogs { template_manager: false, ..d }
    } else {
        d
    }
}

/// `prev`, followed by `s` when `c` holds.
pub open spec fn then_if(prev: Seq<ShortcutAction>, c: bool, s: Seq<ShortcutAction>) -> Seq<ShortcutAction> {
    if c {
        prev + s
    } else {
        prev
    }
}

/// `prev` followed by what the view and navigation keys ask for; they act
/// only when no dialog is open (after this frame's Escape and Ctrl
/// shortcuts).
pub open spec fn view_actions(
    prev: Seq<ShortcutAction>,
    keys: ShortcutKeys,
    m: ShortcutModifiers,
    d: OpenDialogs,
) -> Seq<ShortcutAction> {
    let any = d.event_dialog || d.settings || d.search || d.theme || d.date_picker
        || d.template_manager || d.export_range;
    if any {
        prev
    } else {
        let a1 = then_if(
            prev,
            keys.d && !m.ctrl,
            seq![ShortcutAction::SetView(ViewType::Day), ShortcutAction::FocusCurrentTime],
        );
        let a2 = then_if(
            a1,
            keys.w && !m.ctrl,
            seq![ShortcutAction::SetView(ViewType::Week), ShortcutAction::FocusCurrentTime],
        );
        let a3 = then_if(
            a2,
            keys.k && !m.ctrl,
            seq![ShortcutAction::SetView(ViewType::WorkWeek), ShortcutAction::FocusCurrentTime],
        );
        let a4 = then_if(a3, keys.m && !m.ctrl, seq![ShortcutAction::SetView(ViewType::Month)]);
        let a5 = then_if(a4, keys.left, seq![ShortcutAction::Navigate(NavDirection::Previous)]);
        let a6 = then_if(a5, keys.right, seq![ShortcutAction::Navigate(NavDirection::Next)]);
        let a7 = then_if(a6, keys.up, seq![ShortcutAction::Navigate(NavDirection::Up)]);
        then_if(a7, keys.down, seq![ShortcutAction::Navigate(NavDirection::Down)])
    }
}

/// The actions a frame's keys ask for, in order. While a text field has
/// the keyboard only Escape acts.
pub open spec fn shortcut_spec(
    keys: ShortcutKeys,
    m: ShortcutModifiers,
    is_typing: bool,
    d: OpenDialogs,
) -> Seq<ShortcutAction> {
    let e = escape_actions(keys, d);
    if is_typing {
        e
    } else {
        let d1 = after_escape(keys, d);
        let new_event = m.ctrl && keys.n && !d1.event_dialog;
        let d2 = OpenDialogs { event_dialog: d1.event_dialog || new_event, ..d1 };
        let search = m.ctrl && keys.f && !d2.search;
        let d3 = OpenDialogs { search: d2.search || search, ..d2 };
        let d4 = OpenDialogs { settings: d3.settings || (m.ctrl && keys.s), ..d3 };
        let s1 = then_if(e, new_event, seq![ShortcutAction::NewEvent]);
        let s2 = then_if(s1, search, seq![ShortcutAction::OpenSearch]);
        let s3 = then_if(s2, m.ctrl && keys.t, seq![ShortcutAction::JumpToToday]);
        let s4 = then_if(s3, m.ctrl && keys.s, seq![ShortcutAction::OpenSettings]);
        let s5 = then_if(s4, m.ctrl && keys.b, seq![ShortcutAction::CreateBackup]);
        let s6 = then_if(s5, m.ctrl && keys.z && !m.shift, seq![ShortcutAction::Undo]);
        let s7 = then_if(s6, (m.ctrl && keys.y) || (m.ctrl && m.shift && keys.z), seq![ShortcutAction::Redo]);
        let s8 = then_if(s7, m.ctrl && keys.backslash, seq![ShortcutAction::ToggleSidebar]);
        view_actions(s8, keys, m, d4)
    }
}

fn push_when(out: &mut Vec<ShortcutAction>, c: bool, a: ShortcutAction)
    ensures
        final(out)@ == then_if(old(out)@, c, seq![a]),
{
    if c {
        out.push(a);
        assert(out@ =~= old(out)@ + seq![a]);
    }
}

fn push_when2(out: &mut Vec<ShortcutAction>, c: bool, a: ShortcutAction, b: ShortcutAction)
    ensures
        final(out)@ == then_if(old(out)@, c, seq![a, b]),
{
    if c {
        out.push(a);
        out.push(b);
        assert(out@ =~= old(out)@ + seq![a, b]);
    }
}

fn push_view_actions(out: &mut Vec<ShortcutAction>, keys: ShortcutKeys, m: ShortcutModifiers, d: OpenDialogs)
    ensures
        final(out)@ == view_actions(old(out)@, keys, m, d),
{
    let any = d.event_dialog || d.settings || d.search || d.theme || d.date_picker
        || d.template_manager || d.export_range;
    if any {
        return;
    }
    push_when2(out, keys.d && !m.ctrl, ShortcutAction::SetView(ViewType::Day), ShortcutAction::FocusCurrentTime);
    push_when2(out, keys.w && !m.ctrl, ShortcutAction::SetView(ViewType::Week), ShortcutAction::FocusCurrentTime);
    push_when2(out, keys.k && !m.ctrl, ShortcutAction::SetView(ViewType::WorkWeek), ShortcutAction::FocusCurrentTime);
    push_when(out, keys.m && !m.ctrl, ShortcutAction::SetView(ViewType::Month));
    push_when(out, keys.left, ShortcutAction::Navigate(NavDirection::Previous));
    push_when(out, keys.right, ShortcutAction::Navigate(NavDirection::Next));
    push_when(out, keys.up, ShortcutAction::Navigate(NavDirection::Up));
    push_when(out, keys.down, ShortcutAction::Navigate(NavDirection::Down));
}

fn escape_step(out: &mut Vec<ShortcutAction>, keys: ShortcutKeys, dialogs: OpenDialogs) -> (r: OpenDialogs)
    requires
        old(out)@ == Seq::<ShortcutAction>::empty(),
    ensures
        final(out)@ == escape_actions(keys, dialogs),
        r == after_escape(keys, dialogs),
{
    let mut d = dialogs;
    if keys.escape {
        if d.event_dialog {
            out.push(ShortcutAction::CloseEventDialog);
            d.event_dialog = false;
        } else if d.settings {
            out.push(ShortcutAction::CloseSettings);
            d.settings = false;
        } else if d.search {
            out.push(ShortcutAction::CloseSearch);
            d.search = false;
        } else if d.theme {
            out.push(ShortcutAction::CloseThemeDialog);
            d.theme = false;
        } else if d.date_picker {
            out.push(ShortcutAction::CloseDatePicker);
            d.date_picker = false;
        } else if d.template_manager {
            out.push(ShortcutAction::CloseTemplateManager);
            d.template_manager = false;
        }
    }
    assert(out@ =~= escape_actions(keys, dialogs));
    d
}

/// The actions a frame's key presses ask for, in the order they are
/// carried out: Escape closes the first open dialog; unless a text field
/// has the keyboard, the Ctrl shortcuts follow, then (when no dialog is
/// open by then) the view keys and the arrows.
pub fn shortcut_actions(keys: ShortcutKeys, m: ShortcutModifiers, is_typing: bool, dialogs: OpenDialogs) -> (r: Vec<ShortcutAction>)
    ensures
        r@ == shortcut_spec(keys, m, is_typing, dialogs),
{
    let mut out: Vec<ShortcutAction> = Vec::new();
    let mut d = escape_step(&mut out, keys, dialogs);
    if is_typing {
        return out;
    }
    let new_event = m.ctrl && keys.n && !d.event_dialog;
    push_when(&mut out, new_event, ShortcutAction::NewEvent);
    d.event_dialog = d.event_dialog || new_event;
    let search = m.ctrl && keys.f && !d.search;
    push_when(&mut out, search, ShortcutAction::OpenSearch);
    d.search = d.search || search;
    push_when(&mut out, m.ctrl && keys.t, ShortcutAction::JumpToToday);
    push_when(&mut out, m.ctrl && keys.s, ShortcutAction::OpenSettings);
    d.settings = d.settings || (m.ctrl && keys.s);
    push_when(&mut out, m.ctrl && keys.b, ShortcutAction::CreateBackup);
    push_when(&mut out, m.ctrl && keys.z && !m.shift, ShortcutAction::Undo);
    push_when(&mut out, (m.ctrl && keys.y) || (m.ctrl && m.shift && keys.z), ShortcutAction::Redo);
    push_when(&mut out, m.ctrl && keys.backslash, ShortcutAction::ToggleSidebar);
    push_view_actions(&mut out, keys, m, d);
    out
}

/// Escape closes at most one dialog, and while a text field has the
/// keyboard nothing but Escape acts.
pub proof fn lemma_escape_closes_one_dialog(keys: ShortcutKeys, m: ShortcutModifiers, d: OpenDialogs)
    ensures
        escape_actions(keys, d).len() <= 1,
        shortcut_spec(keys, m, true, d) == escape_actions(keys, d),
        !keys.escape ==> after_escape(keys, d) == d,
{
}

/// No dialog is open.
pub open spec fn no_dialog_open(d: OpenDialogs) -> bool {
    !d.event_dialog && !d.settings && !d.search && !d.theme && !d.date_picker && !d.template_manager
        && !d.export_range
}

/// The arrow key that asks for a navigation step.
pub open spec fn arrow_for(keys: ShortcutKeys, dir: NavDirection) -> bool {
    match dir {
        NavDirection::Previous => keys.left,
        NavDirection::Next => keys.right,
        NavDirection::Up => keys.up,
        NavDirection::Down => keys.down,
    }
}

proof fn lemma_then_if_contains(prev: Seq<ShortcutAction>, c: bool, s: Seq<ShortcutAction>, x: ShortcutAction)
    ensures
        then_if(prev, c, s).contains(x) <==> prev.contains(x) || (c && s.contains(x)),
{
    if c {
        let t = prev + s;
        if t.contains(x) {
            let i = choose|i: int| 0 <= i < t.len() && t[i] == x;
            if i < prev.len() {
                assert(prev[i] == x);
            } else {
                assert(s[i - prev.len()] == x);
            }
        }
        if prev.contains(x) {
            let i = choose|i: int| 0 <= i < prev.len() && prev[i] == x;
            assert(t[i] == x);
        }
        if s.contains(x) {
            let i = choose|i: int| 0 <= i < s.len() && s[i] == x;
            assert(t[prev.len() + i] == x);
        }
    }
}

/// Without Ctrl, only Escape and the view and arrow keys act.
proof fn lemma_no_ctrl_actions(keys: ShortcutKeys, m: ShortcutModifiers, d: OpenDialogs)
    requires
        !m.ctrl,
    ensures
        shortcut_spec(keys, m, false, d) == view_actions(escape_actions(keys, d), keys, m, after_escape(keys, d)),
{
    let d1 = after_escape(keys, d);
    let d4 = OpenDialogs {
        settings: d1.settings,
        ..OpenDialogs { search: d1.search, ..OpenDialogs { event_dialog: d1.event_dialog, ..d1 } }
    };
    assert(d4 == d1);
}

/// Which navigation steps the view and arrow keys add after `prev`.
#[verifier::rlimit(40)]
proof fn lemma_view_actions_navigate(
    prev: Seq<ShortcutAction>,
    keys: ShortcutKeys,
    m: ShortcutModifiers,
    d: OpenDialogs,
    dir: NavDirection,
)
    requires
        !m.ctrl,
        !prev.contains(ShortcutAction::Navigate(dir)),
    ensures
        no_dialog_open(d) ==> (view_actions(prev, keys, m, d).contains(ShortcutAction::Navigate(dir))
            <==> arrow_for(keys, dir)),
        !no_dialog_open(d) ==> view_actions(prev, keys, m, d) == prev,
        no_dialog_open(d) && prev.len() == 0 && !keys.d && !keys.w && !keys.k && !keys.m && arrow_for(keys, dir)
            && (forall|o: NavDirection| o != dir ==> !#[trigger] arrow_for(keys, o)) ==> view_actions(
            prev,
            keys,
            m,
            d,
        ) == seq![ShortcutAction::Navigate(dir)],
{
    let x = ShortcutAction::Navigate(dir);
    if no_dialog_open(d) {
        let v1 = seq![ShortcutAction::SetView(ViewType::Day), ShortcutAction::FocusCurrentTime];
        let v2 = seq![ShortcutAction::SetView(ViewType::Week), ShortcutAction::FocusCurrentTime];
        let v3 = seq![ShortcutAction::SetView(ViewType::WorkWeek), ShortcutAction::FocusCurrentTime];
        let v4 = seq![ShortcutAction::SetView(ViewType::Month)];
        let n1 = seq![ShortcutAction::Navigate(NavDirection::Previous)];
        let n2 = seq![ShortcutAction::Navigate(NavDirection::Next)];
        let n3 = seq![ShortcutAction::Navigate(NavDirection::Up)];
        let n4 = seq![ShortcutAction::Navigate(NavDirection::Down)];
        let a1 = then_if(prev, keys.d && !m.ctrl, v1);
        let a2 = then_if(a1, keys.w && !m.ctrl, v2);
        let a3 = then_if(a2, keys.k && !m.ctrl, v3);
        let a4 = then_if(a3, keys.m && !m.ctrl, v4);
        let a5 = then_if(a4, keys.left, n1);
        let a6 = then_if(a5, keys.right, n2);
        let a7 = then_if(a6, keys.up, n3);
        let a8 = then_if(a7, keys.down, n4);
        assert(view_actions(prev, keys, m, d) == a8);
        lemma_then_if_contains(prev, keys.d && !m.ctrl, v1, x);
        lemma_then_if_contains(a1, keys.w && !m.ctrl, v2, x);
        lemma_then_if_contains(a2, keys.k && !m.ctrl, v3, x);
        lemma_then_if_contains(a3, keys.m && !m.ctrl, v4, x);
        lemma_then_if_contains(a4, keys.left, n1, x);
        lemma_then_if_contains(a5, keys.right, n2, x);
        lemma_then_if_contains(a6, keys.up, n3, x);
        lemma_then_if_contains(a7, keys.down, n4, x);
        assert(!v1.contains(x)) by {
            assert(v1[0] != x && v1[1] != x);
        }
        assert(!v2.contains(x)) by {
            assert(v2[0] != x && v2[1] != x);
        }
        assert(!v3.contains(x)) by {
            assert(v3[0] != x && v3[1] != x);
        }
        assert(!v4.contains(x)) by {
            assert(v4[0] != x);
        }
        assert(n1.contains(x) <==> dir == NavDirection::Previous) by {
            assert(n1[0] == ShortcutAction::Navigate(NavDirection::Previous));
        }
        assert(n2.contains(x) <==> dir == NavDirection::Next) by {
            assert(n2[0] == ShortcutAction::Navigate(NavDirection::Next));
        }
        assert(n3.contains(x) <==> dir == NavDirection::Up) by {
            assert(n3[0] == ShortcutAction::Navigate(NavDirection::Up));
        }
        assert(n4.contains(x) <==> dir == NavDirection::Down) by {
            assert(n4[0] == ShortcutAction::Navigate(NavDirection::Down));
        }
        if prev.len() == 0 && !keys.d && !keys.w && !keys.k && !keys.m && arrow_for(keys, dir)
            && (forall|o: NavDirection| o != dir ==> !#[trigger] arrow_for(keys, o)) {
            assert(a4 == prev);
            match dir {
                NavDirection::Previous => {
                    assert(!arrow_for(keys, NavDirection::Next) && !arrow_for(keys, NavDirection::Up)
                        && !arrow_for(keys, NavDirection::Down));
                    assert(a8 =~= seq![x]);
                },
                NavDirection::Next => {
                    assert(!arrow_for(keys, NavDirection::Previous) && !arrow_for(keys, NavDirection::Up)
                        && !arrow_for(keys, NavDirection::Down));
                    assert(a8 =~= seq![x]);
                },
                NavDirection::Up => {
                    assert(!arrow_for(keys, NavDirection::Previous) && !arrow_for(keys, NavDirection::Next)
                        && !arrow_for(keys, NavDirection::Down));
                    assert(a8 =~= seq![x]);
                },
                NavDirection::Down => {
                    assert(!arrow_for(keys, NavDirection::Previous) && !arrow_for(keys, NavDirection::Next)
                        && !arrow_for(keys, NavDirection::Up));
                    assert(a8 =~= seq![x]);
                },
            }
        }
    }
}

/// The arrow keys navigate: with no dialog open, no text field focused and
/// Ctrl up, a frame's actions hold a step in a direction exactly when that
/// direction's arrow is pressed (Left: previous, Right: next, Up: up,
/// Down: down), and they hold no step while a dialog stays open. Pressing
/// one arrow alone asks for that step and nothing else.
pub proof fn lemma_arrow_keys_navigate(keys: ShortcutKeys, m: ShortcutModifiers, d: OpenDialogs, dir: NavDirection)
    requires
        !m.ctrl,
    ensures
        no_dialog_open(d) ==> (shortcut_spec(keys, m, false, d).contains(ShortcutAction::Navigate(dir))
            <==> arrow_for(keys, dir)),
        no_dialog_open(d) && !keys.escape && !keys.d && !keys.w && !keys.k && !keys.m && arrow_for(keys, dir)
            && (forall|o: NavDirection| o != dir ==> !#[trigger] arrow_for(keys, o)) ==> shortcut_spec(
            keys,
            m,
            false,
            d,
        ) == seq![ShortcutAction::Navigate(dir)],
        !no_dialog_open(d) && !keys.escape ==> !shortcut_spec(keys, m, false, d).contains(
            ShortcutAction::Navigate(dir),
        ),
{
    let e = escape_actions(keys, d);
    let d1 = after_escape(keys, d);
    lemma_no_ctrl_actions(keys, m, d);
    assert(e.len() <= 1);
    assert(e.len() == 1 ==> e[0] != ShortcutAction::Navigate(dir));
    assert(!e.contains(ShortcutAction::Navigate(dir)));
    assert(no_dialog_open(d) ==> e.len() == 0 && d1 == d);
    assert(!keys.escape ==> e.len() == 0 && d1 == d);
    lemma_view_actions_navigate(e, keys, m, d1, dir);
}

} // verus!
