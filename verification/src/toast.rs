//! Brief, self-expiring feedback messages ("Event saved", "Backup created").

use vstd::prelude::*;
use std::time::Instant;

verus! {

/// A point in monotonic time; opaque to proofs, carried through.
#[verifier::external_type_specification]
#[verifier::external_body]
pub struct ExInstant(std::time::Instant);

/// `Instant::now`: the current monotonic time. Nothing is stated of it.
#[verifier::external_body]
fn instant_now() -> (r: Instant) {
    Instant::now()
}

/// `Instant::elapsed`, in whole milliseconds: the time since `at`. It
/// depends on the clock, so nothing is stated of the value.
#[verifier::external_body]
fn elapsed_millis(at: &Instant) -> (r: u128) {
    at.elapsed().as_millis()
}

/// Severity of a toast.
#[derive(Debug, Clone, Copy, PartialEq, Eq, Structural)]
pub enum ToastLevel {
    Success,
    Info,
    Warning,
    Error,
}

/// A colour as red, green and blue channels.
pub type Rgb = (u8, u8, u8);

impl ToastLevel {
    pub open spec fn spec_icon(self) -> Seq<char> {
        match self {
            ToastLevel::Success => "✓"@,
            ToastLevel::Info => "ℹ"@,
            ToastLevel::Warning => "⚠"@,
            ToastLevel::Error => "✗"@,
        }
    }

    /// The symbol shown in front of the message.
    pub fn icon(&self) -> (r: &'static str)
        ensures
            r@ == self.spec_icon(),
    {
        match self {
            ToastLevel::Success => "✓",
            ToastLevel::Info => "ℹ",
            ToastLevel::Warning => "⚠",
            ToastLevel::Error => "✗",
        }
    }

    pub open spec fn spec_background(self, is_dark_theme: bool) -> Rgb {
        if is_dark_theme {
            match self {
                ToastLevel::Success => (30, 70, 40),
                ToastLevel::Info => (30, 50, 80),
                ToastLevel::Warning => (80, 60, 20),
                ToastLevel::Error => (80, 30, 30),
            }
        } else {
            match self {
                ToastLevel::Success => (220, 255, 220),
                ToastLevel::Info => (220, 235, 255),
                ToastLevel::Warning => (255, 245, 200),
                ToastLevel::Error => (255, 220, 220),
            }
        }
    }

    /// Background colour of the toast frame.
    pub fn background_color(&self, is_dark_theme: bool) -> (r: Rgb)
        ensures
            r == self.spec_background(is_dark_theme),
    {
        if is_dark_theme {
            match self {
                ToastLevel::Success => (30, 70, 40),
                ToastLevel::Info => (30, 50, 80),
                ToastLevel::Warning => (80, 60, 20),
                ToastLevel::Error => (80, 30, 30),
            }
        } else {
            match self {
                ToastLevel::Success => (220, 255, 220),
                ToastLevel::Info => (220, 235, 255),
                ToastLevel::Warning => (255, 245, 200),
                ToastLevel::Error => (255, 220, 220),
            }
        }
    }

    pub open spec fn spec_text(self, is_dark_theme: bool) -> Rgb {
        if is_dark_theme {
            match self {
                ToastLevel::Success => (100, 220, 120),
                ToastLevel::Info => (100, 180, 255),
                ToastLevel::Warning => (255, 200, 80),
                ToastLevel::Error => (255, 120, 120),
            }
        } else {
            match self {
                ToastLevel::Success => (30, 120, 50),
                ToastLevel::Info => (30, 80, 150),
                ToastLevel::Warning => (150, 100, 0),
                ToastLevel::Error => (180, 40, 40),
            }
        }
    }

    /// Colour of the icon and the message.
    pub fn text_color(&self, is_dark_theme: bool) -> (r: Rgb)
        ensures
            r == self.spec_text(is_dark_theme),
    {
        if is_dark_theme {
            match self {
                ToastLevel::Success => (100, 220, 120),
                ToastLevel::Info => (100, 180, 255),
                ToastLevel::Warning => (255, 200, 80),
                ToastLevel::Error => (255, 120, 120),
            }
        } else {
            match self {
                ToastLevel::Success => (30, 120, 50),
                ToastLevel::Info => (30, 80, 150),
                ToastLevel::Warning => (150, 100, 0),
                ToastLevel::Error => (180, 40, 40),
            }
        }
    }
}

/// How long a toast stays, unless told otherwise: three seconds.
pub const DEFAULT_TOAST_MILLIS: u64 = 3000;

/// One notification.
#[derive(Debug)]
pub struct Toast {
    pub message: String,
    pub level: ToastLevel,
    /// When the toast was made.
    pub created_at: Instant,
    /// How long it is shown, in milliseconds.
    pub duration_ms: u64,
}

impl Toast {
    /// A toast made now, shown for the default time.
    pub fn new(message: String, level: ToastLevel) -> (r: Self)
        ensures
            r.message == message,
            r.level == level,
            r.duration_ms == DEFAULT_TOAST_MILLIS,
    {
        Toast { message, level, created_at: instant_now(), duration_ms: DEFAULT_TOAST_MILLIS }
    }

    pub fn success(message: String) -> (r: Self)
        ensures
            r.message == message,
            r.level == ToastLevel::Success,
            r.duration_ms == DEFAULT_TOAST_MILLIS,
    {
        Self::new(message, ToastLevel::Success)
    }

    pub fn info(message: String) -> (r: Self)
        ensures
            r.message == message,
            r.level == ToastLevel::Info,
            r.duration_ms == DEFAULT_TOAST_MILLIS,
    {
        Self::new(message, ToastLevel::Info)
    }

    pub fn warning(message: String) -> (r: Self)
        ensures
            r.message == message,
            r.level == ToastLevel::Warning,
            r.duration_ms == DEFAULT_TOAST_MILLIS,
    {
        Self::new(message, ToastLevel::Warning)
    }

    pub fn error(message: String) -> (r: Self)
        ensures
            r.message == message,
            r.level == ToastLevel::Error,
            r.duration_ms == DEFAULT_TOAST_MILLIS,
    {
        Self::new(message, ToastLevel::Error)
    }

    /// The same toast, shown for `duration_ms` milliseconds.
    pub fn with_duration(self, duration_ms: u64) -> (r: Self)
        ensures
            r.message == self.message,
            r.level == self.level,
            r.created_at == self.created_at,
            r.duration_ms == duration_ms,
    {
        let mut t = self;
        t.duration_ms = duration_ms;
        t
    }

    /// Whether a toast that has been shown for `elapsed_ms` is over.
    pub fn is_expired_after(&self, elapsed_ms: u128) -> (r: bool)
        ensures
            r == (elapsed_ms >= self.duration_ms),
    {
        elapsed_ms >= self.duration_ms as u128
    }

    /// When the toast was made: the instant its time is measured from.
    pub fn created_at(&self) -> (r: &Instant)
        ensures
            *r == self.created_at,
    {
        &self.created_at
    }

    /// Whether the toast's time is over, by the clock: the time elapsed
    /// since `created_at()` is at least its duration (`is_expired_after`).
    pub fn is_expired(&self) -> (r: bool)
        ensures
            self.duration_ms == 0 ==> r,
    {
        let elapsed = elapsed_millis(self.created_at());
        self.is_expired_after(elapsed)
    }
}

/// The toasts of `s` whose elapsed time in `e` (index for index) is still
/// below their duration, in their order.
pub open spec fn unexpired(s: Seq<Toast>, e: Seq<u128>) -> Seq<Toast>
    decreases s.len(),
{
    if s.len() == 0 || e.len() == 0 {
        Seq::empty()
    } else {
        let rest = unexpired(s.drop_last(), e.drop_last());
        if e.last() >= s.last().duration_ms {
            rest
        } else {
            rest.push(s.last())
        }
    }
}

/// The active toasts, oldest first.
#[derive(Debug)]
pub struct ToastManager {
    toasts: Vec<Toast>,
}

impl View for ToastManager {
    type V = Seq<Toast>;

    closed spec fn view(&self) -> Seq<Toast> {
        self.toasts@
    }
}

proof fn lemma_unexpired_prefix(s: Seq<Toast>, e: Seq<u128>, i: int)
    requires
        s.len() == e.len(),
        0 <= i < s.len(),
    ensures
        unexpired(s.subrange(0, i + 1), e.subrange(0, i + 1)) == if e[i] >= s[i].duration_ms {
            unexpired(s.subrange(0, i), e.subrange(0, i))
        } else {
            unexpired(s.subrange(0, i), e.subrange(0, i)).push(s[i])
        },
{
    assert(s.subrange(0, i + 1).drop_last() =~= s.subrange(0, i));
    assert(e.subrange(0, i + 1).drop_last() =~= e.subrange(0, i));
}

impl ToastManager {
    pub fn new() -> (r: Self)
        ensures
            r@ == Seq::<Toast>::empty(),
    {
        ToastManager { toasts: Vec::new() }
    }

    /// The active toasts, oldest first.
    pub fn toasts(&self) -> (r: &Vec<Toast>)
        ensures
            r@ == self@,
    {
        &self.toasts
    }

    pub fn add(&mut self, toast: Toast)
        ensures
            final(self)@ == old(self)@.push(toast),
    {
        self.toasts.push(toast);
    }

    pub fn success(&mut self, message: String)
        ensures
            final(self)@.len() == old(self)@.len() + 1,
            final(self)@.drop_last() == old(self)@,
            final(self)@.last().message == message,
            final(self)@.last().level == ToastLevel::Success,
            final(self)@.last().duration_ms == DEFAULT_TOAST_MILLIS,
    {
        self.add(Toast::success(message));
    }

    pub fn info(&mut self, message: String)
        ensures
            final(self)@.len() == old(self)@.len() + 1,
            final(self)@.drop_last() == old(self)@,
            final(self)@.last().message == message,
            final(self)@.last().level == ToastLevel::Info,
            final(self)@.last().duration_ms == DEFAULT_TOAST_MILLIS,
    {
        self.add(Toast::info(message));
    }

    pub fn warning(&mut self, message: String)
        ensures
            final(self)@.len() == old(self)@.len() + 1,
            final(self)@.drop_last() == old(self)@,
            final(self)@.last().message == message,
            final(self)@.last().level == ToastLevel::Warning,
            final(self)@.last().duration_ms == DEFAULT_TOAST_MILLIS,
    {
        self.add(Toast::warning(message));
    }

    pub fn error(&mut self, message: String)
        ensures
            final(self)@.len() == old(self)@.len() + 1,
            final(self)@.drop_last() == old(self)@,
            final(self)@.last().message == message,
            final(self)@.last().level == ToastLevel::Error,
            final(self)@.last().duration_ms == DEFAULT_TOAST_MILLIS,
    {
        self.add(Toast::error(message));
    }

    /// Drops the toasts whose time is over, given how long each toast has
    /// been shown (index for index).
    pub fn remove_expired(&mut self, elapsed_ms: &Vec<u128>)
        requires
            elapsed_ms@.len() == old(self)@.len(),
        ensures
            final(self)@ == unexpired(old(self)@, elapsed_ms@),
    {
        let ghost all = self.toasts@;
        let mut kept: Vec<Toast> = Vec::new();
        let mut rest = Vec::new();
        std::mem::swap(&mut rest, &mut self.toasts);
        let n = rest.len();
        let mut i: usize = 0;
        while i < n
            invariant
                n == all.len(),
                rest@ == all.subrange(i as int, n as int),
                elapsed_ms@.len() == n,
                0 <= i <= n,
                kept@ == unexpired(all.subrange(0, i as int), elapsed_ms@.subrange(0, i as int)),
            decreases n - i,
        {
            proof {
                lemma_unexpired_prefix(all, elapsed_ms@, i as int);
            }
            let t = rest.remove(0);
            assert(t == all[i as int]);
            if elapsed_ms[i] < t.duration_ms as u128 {
                kept.push(t);
            }
            i = i + 1;
            assert(rest@ =~= all.subrange(i as int, n as int));
        }
        assert(all.subrange(0, n as int) =~= all);
        assert(elapsed_ms@.subrange(0, n as int) =~= elapsed_ms@);
        self.toasts = kept;
    }

    /// Drops the toasts whose time is over, by the clock: each toast's
    /// elapsed time is measured from its own `created_at()`, and the toasts
    /// go as `remove_expired` states.
    pub fn cleanup(&mut self)
        ensures
            exists|e: Seq<u128>| e.len() == old(self)@.len() && final(self)@ == unexpired(old(self)@, e),
    {
        let mut elapsed: Vec<u128> = Vec::new();
        let mut i: usize = 0;
        while i < self.toasts.len()
            invariant
                0 <= i <= self.toasts@.len(),
                elapsed@.len() == i,
            decreases self.toasts@.len() - i,
        {
            elapsed.push(elapsed_millis(self.toasts[i].created_at()));
            i = i + 1;
        }
        self.remove_expired(&elapsed);
    }

    pub fn has_toasts(&self) -> (r: bool)
        ensures
            r == (self@.len() > 0),
    {
        !self.toasts.is_empty()
    }
}

proof fn lemma_unexpired_members(s: Seq<Toast>, e: Seq<u128>)
    requires
        s.len() == e.len(),
    ensures
        unexpired(s, e).len() <= s.len(),
        forall|j: int|
            0 <= j < unexpired(s, e).len() ==> exists|i: int|
                0 <= i < s.len() && #[trigger] unexpired(s, e)[j] == s[i] && e[i] < s[i].duration_ms,
    decreases s.len(),
{
    if s.len() > 0 {
        let s0 = s.drop_last();
        let e0 = e.drop_last();
        lemma_unexpired_members(s0, e0);
        let rest = unexpired(s0, e0);
        let u = unexpired(s, e);
        assert forall|j: int| 0 <= j < u.len() implies exists|i: int|
            0 <= i < s.len() && #[trigger] u[j] == s[i] && e[i] < s[i].duration_ms by {
            if j < rest.len() {
                let i = choose|i: int|
                    0 <= i < s0.len() && #[trigger] rest[j] == s0[i] && e0[i] < s0[i].duration_ms;
                assert(s0[i] == s[i] && e0[i] == e[i]);
                assert(u[j] == s[i]);
            } else {
                assert(u[j] == s[s.len() - 1]);
            }
        }
    }
}

proof fn lemma_unexpired_all_live(s: Seq<Toast>, e: Seq<u128>)
    requires
        s.len() == e.len(),
        forall|i: int| 0 <= i < s.len() ==> e[i] < #[trigger] s[i].duration_ms,
    ensures
        unexpired(s, e) == s,
    decreases s.len(),
{
    if s.len() > 0 {
        let s0 = s.drop_last();
        let e0 = e.drop_last();
        assert forall|i: int| 0 <= i < s0.len() implies e0[i] < #[trigger] s0[i].duration_ms by {
            assert(s0[i] == s[i] && e0[i] == e[i]);
        }
        lemma_unexpired_all_live(s0, e0);
        assert(e[s.len() - 1] < s[s.len() - 1].duration_ms);
        assert(unexpired(s, e) =~= s);
    }
}

proof fn lemma_unexpired_all_over(s: Seq<Toast>, e: Seq<u128>)
    requires
        s.len() == e.len(),
        forall|i: int| 0 <= i < s.len() ==> e[i] >= #[trigger] s[i].duration_ms,
    ensures
        unexpired(s, e).len() == 0,
    decreases s.len(),
{
    if s.len() > 0 {
        let s0 = s.drop_last();
        let e0 = e.drop_last();
        assert forall|i: int| 0 <= i < s0.len() implies e0[i] >= #[trigger] s0[i].duration_ms by {
            assert(s0[i] == s[i] && e0[i] == e[i]);
        }
        lemma_unexpired_all_over(s0, e0);
        assert(e[s.len() - 1] >= s[s.len() - 1].duration_ms);
    }
}

/// Cleaning up keeps only toasts whose time is not over, each one of the
/// toasts it had; when no toast is over it keeps them all, in order, and
/// when every toast is over it keeps none.
pub proof fn lemma_cleanup_keeps_live_toasts(s: Seq<Toast>, e: Seq<u128>)
    requires
        s.len() == e.len(),
    ensures
        unexpired(s, e).len() <= s.len(),
        forall|j: int|
            0 <= j < unexpired(s, e).len() ==> exists|i: int|
                0 <= i < s.len() && #[trigger] unexpired(s, e)[j] == s[i] && e[i] < s[i].duration_ms,
        (forall|i: int| 0 <= i < s.len() ==> e[i] < #[trigger] s[i].duration_ms) ==> unexpired(s, e)
            == s,
        (forall|i: int| 0 <= i < s.len() ==> e[i] >= #[trigger] s[i].duration_ms) ==> unexpired(
            s,
            e,
        ).len() == 0,
{
    lemma_unexpired_members(s, e);
    if forall|i: int| 0 <= i < s.len() ==> e[i] < #[trigger] s[i].duration_ms {
        lemma_unexpired_all_live(s, e);
    }
    if forall|i: int| 0 <= i < s.len() ==> e[i] >= #[trigger] s[i].duration_ms {
        lemma_unexpired_all_over(s, e);
    }
}

/// One call that changes the toasts: adding a toast, or a cleanup that
/// found the given elapsed times (index for index).
pub enum ToastOp {
    Add(Toast),
    Cleanup(Seq<u128>),
}

/// Whether a cleanup's times fit the toasts it meets, in every step.
pub open spec fn ops_fit(ops: Seq<ToastOp>) -> bool
    decreases ops.len(),
{
    if ops.len() == 0 {
        true
    } else {
        &&& ops_fit(ops.drop_last())
        &&& ops.last() matches ToastOp::Cleanup(e) ==> e.len() == run_toasts(ops.drop_last()).len()
    }
}

/// The toasts of a manager made by `ToastManager::new` after the calls in
/// `ops`, as `add` and `remove_expired` state their effect.
pub open spec fn run_toasts(ops: Seq<ToastOp>) -> Seq<Toast>
    decreases ops.len(),
{
    if ops.len() == 0 {
        Seq::empty()
    } else {
        let before = run_toasts(ops.drop_last());
        match ops.last() {
            ToastOp::Add(t) => before.push(t),
            ToastOp::Cleanup(e) => unexpired(before, e),
        }
    }
}

/// How many toasts the calls added.
pub open spec fn added_count(ops: Seq<ToastOp>) -> nat
    decreases ops.len(),
{
    if ops.len() == 0 {
        0
    } else {
        added_count(ops.drop_last()) + if ops.last() is Add { 1nat } else { 0nat }
    }
}

/// How many toasts the cleanups removed, each one a toast whose time was
/// over.
pub open spec fn removed_count(ops: Seq<ToastOp>) -> int
    decreases ops.len(),
{
    if ops.len() == 0 {
        0
    } else {
        let before = run_toasts(ops.drop_last());
        removed_count(ops.drop_last()) + match ops.last() {
            ToastOp::Add(_) => 0,
            ToastOp::Cleanup(e) => before.len() - unexpired(before, e).len(),
        }
    }
}

/// From a new manager, `has_toasts` holds after a run of calls exactly when
/// more toasts were added than the cleanups removed as expired: some added
/// toast has not been cleaned up. Each cleanup removes only toasts it has,
/// and only those whose time is over.
pub proof fn lemma_has_toasts_after_run(ops: Seq<ToastOp>)
    requires
        ops_fit(ops),
    ensures
        run_toasts(ops).len() == added_count(ops) - removed_count(ops),
        (run_toasts(ops).len() > 0) <==> added_count(ops) > removed_count(ops),
        0 <= removed_count(ops) <= added_count(ops),
    decreases ops.len(),
{
    if ops.len() > 0 {
        let prev = ops.drop_last();
        lemma_has_toasts_after_run(prev);
        match ops.last() {
            ToastOp::Add(_) => {},
            ToastOp::Cleanup(e) => {
                lemma_unexpired_members(run_toasts(prev), e);
            },
        }
    }
}

} // verus!
