//! Undo/redo history for event edits.
//!
//! Each edit is recorded as a command that knows which store operation
//! re-applies it and which one reverts it. The store itself lives outside
//! the library: the caller asks the history which operation to perform,
//! performs it, and hands the outcome back.

use vstd::prelude::*;
use vstd::string::*;
use crate::calendar_date::{CalDate, TimeOfDay};
use crate::toast::ToastLevel;

verus! {

/// A local wall-clock instant: a calendar date and a time of day.
#[derive(Clone, Copy, Debug, PartialEq, Eq, Structural)]
pub struct LocalDateTime {
    pub date: CalDate,
    pub time: TimeOfDay,
}

/// A calendar event as the store keeps it.
#[derive(Debug)]
pub struct Event {
    pub id: Option<i64>,
    pub title: String,
    pub description: Option<String>,
    pub location: Option<String>,
    pub start: LocalDateTime,
    pub end: LocalDateTime,
    pub all_day: bool,
    pub category: Option<String>,
    pub color: Option<String>,
    pub recurrence_rule: Option<String>,
    pub recurrence_exceptions: Option<String>,
    pub created_at: Option<LocalDateTime>,
    pub updated_at: Option<LocalDateTime>,
}

fn copy_text(s: &Option<String>) -> (r: Option<String>)
    ensures
        r == *s,
{
    match s {
        Some(t) => Some(t.clone()),
        None => None,
    }
}

impl Event {
    /// A field-by-field copy of the event.
    pub fn duplicate(&self) -> (r: Event)
        ensures
            r == *self,
    {
        Event {
            id: self.id,
            title: self.title.clone(),
            description: copy_text(&self.description),
            location: copy_text(&self.location),
            start: self.start,
            end: self.end,
            all_day: self.all_day,
            category: copy_text(&self.category),
            color: copy_text(&self.color),
            recurrence_rule: copy_text(&self.recurrence_rule),
            recurrence_exceptions: copy_text(&self.recurrence_exceptions),
            created_at: self.created_at,
            updated_at: self.updated_at,
        }
    }

    /// The event with its store id replaced.
    pub open spec fn with_id(self, id: Option<i64>) -> Event {
        Event { id: id, ..self }
    }
}

/// An operation on the event store that a command asks the caller to perform.
#[derive(Debug)]
pub enum StoreAction {
    /// Insert the event as a new record; the store answers with the new id.
    CreateEvent(Event),
    /// Overwrite the record that has the event's id.
    UpdateEvent(Event),
    /// Remove the record with this id.
    DeleteEvent(i64),
    /// Nothing to do.
    NoAction,
}

/// The delete operation for an event, if it has been stored.
pub open spec fn delete_step(e: Event) -> StoreAction {
    match e.id {
        Some(id) => StoreAction::DeleteEvent(id),
        None => StoreAction::NoAction,
    }
}

pub open spec fn quoted(prefix: Seq<char>, title: Seq<char>) -> Seq<char> {
    prefix + title + "\""@
}

/// Builds `prefix`, the title, and a closing quote.
fn quoted_text(prefix: &str, title: &String) -> (r: String)
    ensures
        r@ == quoted(prefix@, title@),
{
    let mut s = String::from_str(prefix);
    s.append(title.as_str());
    s.append("\"");
    s
}

/// A command that can be re-applied and reverted against the event store.
pub trait Command {
    /// What the command is called in menus.
    spec fn describe(&self) -> Seq<char>;

    /// The store operation that (re)applies the command.
    spec fn redo_step(&self) -> StoreAction;

    /// The store operation that reverts the command.
    spec fn undo_step(&self) -> StoreAction;

    fn description(&self) -> (r: String)
        ensures
            r@ == self.describe(),
    ;

    fn execute_action(&self) -> (r: StoreAction)
        ensures
            r == self.redo_step(),
    ;

    fn undo_action(&self) -> (r: StoreAction)
        ensures
            r == self.undo_step(),
    ;
}

/// Creation of an event; the stored event carries the id it was given.
#[derive(Debug)]
pub struct CreateEventCommand {
    pub event: Event,
}

impl CreateEventCommand {
    pub fn new(event: Event) -> (r: Self)
        ensures
            r.event == event,
    {
        CreateEventCommand { event }
    }
}

impl Command for CreateEventCommand {
    open spec fn describe(&self) -> Seq<char> {
        quoted("Create event \""@, self.event.title@)
    }

    open spec fn redo_step(&self) -> StoreAction {
        StoreAction::CreateEvent(self.event.with_id(None))
    }

    open spec fn undo_step(&self) -> StoreAction {
        delete_step(self.event)
    }

    fn description(&self) -> (r: String) {
        quoted_text("Create event \"", &self.event.title)
    }

    fn execute_action(&self) -> (r: StoreAction) {
        let mut e = self.event.duplicate();
        e.id = None;
        StoreAction::CreateEvent(e)
    }

    fn undo_action(&self) -> (r: StoreAction) {
        match self.event.id {
            Some(id) => StoreAction::DeleteEvent(id),
            None => StoreAction::NoAction,
        }
    }
}

/// Replacement of an event by a new version of it.
#[derive(Debug)]
pub struct UpdateEventCommand {
    pub old_event: Event,
    pub new_event: Event,
}

impl UpdateEventCommand {
    pub fn new(old_event: Event, new_event: Event) -> (r: Self)
        ensures
            r.old_event == old_event,
            r.new_event == new_event,
    {
        UpdateEventCommand { old_event, new_event }
    }
}

impl Command for UpdateEventCommand {
    open spec fn describe(&self) -> Seq<char> {
        quoted("Update event \""@, self.new_event.title@)
    }

    open spec fn redo_step(&self) -> StoreAction {
        StoreAction::UpdateEvent(self.new_event)
    }

    open spec fn undo_step(&self) -> StoreAction {
        StoreAction::UpdateEvent(self.old_event)
    }

    fn description(&self) -> (r: String) {
        quoted_text("Update event \"", &self.new_event.title)
    }

    fn execute_action(&self) -> (r: StoreAction) {
        StoreAction::UpdateEvent(self.new_event.duplicate())
    }

    fn undo_action(&self) -> (r: StoreAction) {
        StoreAction::UpdateEvent(self.old_event.duplicate())
    }
}

/// Deletion of an event; undoing it stores the event again under a new id.
#[derive(Debug)]
pub struct DeleteEventCommand {
    pub event: Event,
}

impl DeleteEventCommand {
    pub fn new(event: Event) -> (r: Self)
        ensures
            r.event == event,
    {
        DeleteEventCommand { event }
    }
}

impl Command for DeleteEventCommand {
    open spec fn describe(&self) -> Seq<char> {
        quoted("Delete event \""@, self.event.title@)
    }

    open spec fn redo_step(&self) -> StoreAction {
        delete_step(self.event)
    }

    open spec fn undo_step(&self) -> StoreAction {
        StoreAction::CreateEvent(self.event.with_id(None))
    }

    fn description(&self) -> (r: String) {
        quoted_text("Delete event \"", &self.event.title)
    }

    fn execute_action(&self) -> (r: StoreAction) {
        match self.event.id {
            Some(id) => StoreAction::DeleteEvent(id),
            None => StoreAction::NoAction,
        }
    }

    fn undo_action(&self) -> (r: StoreAction) {
        let mut e = self.event.duplicate();
        e.id = None;
        StoreAction::CreateEvent(e)
    }
}

/// Any of the recorded edits.
#[derive(Debug)]
pub enum EventCommand {
    Create(CreateEventCommand),
    Update(UpdateEventCommand),
    Delete(DeleteEventCommand),
}

impl EventCommand {
    /// The command once the store has (re)applied it: a re-created event
    /// carries the id the store gave it.
    pub open spec fn after_redo(self, id: Option<i64>) -> EventCommand {
        match self {
            EventCommand::Create(c) => EventCommand::Create(
                CreateEventCommand { event: c.event.with_id(id) },
            ),
            _ => self,
        }
    }

    /// The command once the store has reverted it: a deleted event that was
    /// stored again carries its new id.
    pub open spec fn after_undo(self, id: Option<i64>) -> EventCommand {
        match self {
            EventCommand::Delete(c) => EventCommand::Delete(
                DeleteEventCommand { event: c.event.with_id(id) },
            ),
            _ => self,
        }
    }

    /// Records the id that the store answered after re-applying the command.
    pub fn record_redo(&mut self, id: Option<i64>)
        ensures
            *final(self) == old(self).after_redo(id),
    {
        match self {
            EventCommand::Create(c) => {
                c.event.id = id;
            },
            _ => {},
        }
    }

    /// Records the id that the store answered after reverting the command.
    pub fn record_undo(&mut self, id: Option<i64>)
        ensures
            *final(self) == old(self).after_undo(id),
    {
        match self {
            EventCommand::Delete(c) => {
                c.event.id = id;
            },
            _ => {},
        }
    }
}

impl Command for EventCommand {
    open spec fn describe(&self) -> Seq<char> {
        match self {
            EventCommand::Create(c) => c.describe(),
            EventCommand::Update(c) => c.describe(),
            EventCommand::Delete(c) => c.describe(),
        }
    }

    open spec fn redo_step(&self) -> StoreAction {
        match self {
            EventCommand::Create(c) => c.redo_step(),
            EventCommand::Update(c) => c.redo_step(),
            EventCommand::Delete(c) => c.redo_step(),
        }
    }

    open spec fn undo_step(&self) -> StoreAction {
        match self {
            EventCommand::Create(c) => c.undo_step(),
            EventCommand::Update(c) => c.undo_step(),
            EventCommand::Delete(c) => c.undo_step(),
        }
    }

    fn description(&self) -> (r: String) {
        match self {
            EventCommand::Create(c) => c.description(),
            EventCommand::Update(c) => c.description(),
            EventCommand::Delete(c) => c.description(),
        }
    }

    fn execute_action(&self) -> (r: StoreAction) {
        match self {
            EventCommand::Create(c) => c.execute_action(),
            EventCommand::Update(c) => c.execute_action(),
            EventCommand::Delete(c) => c.execute_action(),
        }
    }

    fn undo_action(&self) -> (r: StoreAction) {
        match self {
            EventCommand::Create(c) => c.undo_action(),
            EventCommand::Update(c) => c.undo_action(),
            EventCommand::Delete(c) => c.undo_action(),
        }
    }
}

/// The abstract state of the history: both stacks, top last, and the limit.
pub struct HistoryView {
    pub undo: Seq<EventCommand>,
    pub redo: Seq<EventCommand>,
    pub max_history: nat,
}

/// The last `max` commands of `s`, or all of them when there are fewer.
pub open spec fn keep_last(s: Seq<EventCommand>, max: nat) -> Seq<EventCommand> {
    if s.len() > max {
        s.subrange(s.len() - max, s.len() as int)
    } else {
        s
    }
}

/// The history after a newly performed command is recorded.
pub open spec fn history_after_push(h: HistoryView, c: EventCommand) -> HistoryView {
    HistoryView { undo: keep_last(h.undo.push(c), h.max_history), redo: Seq::empty(), ..h }
}

/// The history after an undo whose store operation had `outcome`.
/// A failed operation drops the command.
pub open spec fn history_after_undo(h: HistoryView, outcome: Result<Option<i64>, String>) -> HistoryView {
    if h.undo.len() == 0 {
        h
    } else {
        match outcome {
            Ok(id) => HistoryView {
                undo: h.undo.drop_last(),
                redo: h.redo.push(h.undo.last().after_undo(id)),
                ..h
            },
            Err(_) => HistoryView { undo: h.undo.drop_last(), ..h },
        }
    }
}

/// The history after a redo whose store operation had `outcome`.
/// A failed operation drops the command.
pub open spec fn history_after_redo(h: HistoryView, outcome: Result<Option<i64>, String>) -> HistoryView {
    if h.redo.len() == 0 {
        h
    } else {
        match outcome {
            Ok(id) => HistoryView {
                undo: h.undo.push(h.redo.last().after_redo(id)),
                redo: h.redo.drop_last(),
                ..h
            },
            Err(_) => HistoryView { redo: h.redo.drop_last(), ..h },
        }
    }
}

/// What an undo or redo over `stack` answers: nothing when the stack is
/// empty, the store's error when the operation failed, and otherwise the
/// description of the command that moved.
pub open spec fn step_reply(
    stack: Seq<EventCommand>,
    outcome: Result<Option<i64>, String>,
    r: Result<Option<String>, String>,
) -> bool {
    if stack.len() == 0 {
        r == Ok::<Option<String>, String>(None)
    } else {
        match outcome {
            Err(e) => r == Err::<Option<String>, String>(e),
            Ok(_) => r is Ok && r->Ok_0 is Some && r->Ok_0->Some_0@ == stack.last().describe(),
        }
    }
}

/// Undo and redo stacks of event commands.
#[derive(Debug)]
pub struct UndoManager {
    /// Commands that can be undone, most recent last.
    pub undo_stack: Vec<EventCommand>,
    /// Commands that can be redone, most recently undone last.
    pub redo_stack: Vec<EventCommand>,
    /// Most commands kept in the undo stack when a new one is pushed.
    pub max_history: usize,
}

impl View for UndoManager {
    type V = HistoryView;

    open spec fn view(&self) -> HistoryView {
        HistoryView {
            undo: self.undo_stack@,
            redo: self.redo_stack@,
            max_history: self.max_history as nat,
        }
    }
}

impl UndoManager {
    pub fn new() -> (r: Self)
        ensures
            r@.undo == Seq::<EventCommand>::empty(),
            r@.redo == Seq::<EventCommand>::empty(),
            r@.max_history == 50,
    {
        UndoManager { undo_stack: Vec::new(), redo_stack: Vec::new(), max_history: 50 }
    }

    /// Records a command that has just been performed: the redo stack is
    /// emptied and the oldest commands beyond the limit are dropped.
    pub fn push(&mut self, command: EventCommand)
        ensures
            final(self)@ == history_after_push(old(self)@, command),
    {
        self.redo_stack.clear();
        self.undo_stack.push(command);
        let ghost full = self.undo_stack@;
        let max = self.max_history;
        while self.undo_stack.len() > max
            invariant
                max == self.max_history,
                self.redo_stack@ == Seq::<EventCommand>::empty(),
                self.undo_stack@ == full.subrange(full.len() - self.undo_stack@.len(), full.len() as int),
                self.undo_stack@.len() <= full.len(),
                full.len() > max ==> self.undo_stack@.len() >= max,
                full.len() <= max ==> self.undo_stack@.len() == full.len(),
            decreases self.undo_stack.len(),
        {
            let ghost before = self.undo_stack@;
            self.undo_stack.remove(0);
            assert(self.undo_stack@ =~= full.subrange(full.len() - self.undo_stack@.len(), full.len() as int)) by {
                assert(before.remove(0) =~= before.subrange(1, before.len() as int));
            }
        }
        assert(self.undo_stack@ =~= keep_last(full, max as nat));
    }

    /// The store operation that the next undo performs, if any.
    pub fn undo_request(&self) -> (r: Option<StoreAction>)
        ensures
            self.undo_stack@.len() == 0 ==> r is None,
            self.undo_stack@.len() > 0 ==> r == Some(self.undo_stack@.last().undo_step()),
    {
        let n = self.undo_stack.len();
        if n == 0 {
            None
        } else {
            Some(self.undo_stack[n - 1].undo_action())
        }
    }

    /// The store operation that the next redo performs, if any.
    pub fn redo_request(&self) -> (r: Option<StoreAction>)
        ensures
            self.redo_stack@.len() == 0 ==> r is None,
            self.redo_stack@.len() > 0 ==> r == Some(self.redo_stack@.last().redo_step()),
    {
        let n = self.redo_stack.len();
        if n == 0 {
            None
        } else {
            Some(self.redo_stack[n - 1].execute_action())
        }
    }

    /// Undoes the last command, given the outcome of the store operation
    /// that `undo_request` named: `Ok` with the id of a record the store
    /// created, or the store's error.
    pub fn undo(&mut self, outcome: Result<Option<i64>, String>) -> (r: Result<Option<String>, String>)
        ensures
            final(self)@ == history_after_undo(old(self)@, outcome),
            step_reply(old(self)@.undo, outcome, r),
    {
        match self.undo_stack.pop() {
            None => Ok(None),
            Some(command) => {
                let mut command = command;
                let description = command.description();
                match outcome {
                    Err(e) => Err(e),
                    Ok(id) => {
                        command.record_undo(id);
                        self.redo_stack.push(command);
                        Ok(Some(description))
                    },
                }
            },
        }
    }

    /// Redoes the last undone command, given the outcome of the store
    /// operation that `redo_request` named.
    pub fn redo(&mut self, outcome: Result<Option<i64>, String>) -> (r: Result<Option<String>, String>)
        ensures
            final(self)@ == history_after_redo(old(self)@, outcome),
            step_reply(old(self)@.redo, outcome, r),
    {
        match self.redo_stack.pop() {
            None => Ok(None),
            Some(command) => {
                let mut command = command;
                let description = command.description();
                match outcome {
                    Err(e) => Err(e),
                    Ok(id) => {
                        command.record_redo(id);
                        self.undo_stack.push(command);
                        Ok(Some(description))
                    },
                }
            },
        }
    }

    pub fn can_undo(&self) -> (r: bool)
        ensures
            r == (self.undo_stack@.len() > 0),
    {
        !self.undo_stack.is_empty()
    }

    pub fn can_redo(&self) -> (r: bool)
        ensures
            r == (self.redo_stack@.len() > 0),
    {
        !self.redo_stack.is_empty()
    }

    /// Description of the command the next undo reverts.
    pub fn undo_description(&self) -> (r: Option<String>)
        ensures
            self.undo_stack@.len() == 0 ==> r is None,
            self.undo_stack@.len() > 0 ==> r is Some && r->Some_0@ == self.undo_stack@.last().describe(),
    {
        let n = self.undo_stack.len();
        if n == 0 {
            None
        } else {
            Some(self.undo_stack[n - 1].description())
        }
    }

    /// Description of the command the next redo re-applies.
    pub fn redo_description(&self) -> (r: Option<String>)
        ensures
            self.redo_stack@.len() == 0 ==> r is None,
            self.redo_stack@.len() > 0 ==> r is Some && r->Some_0@ == self.redo_stack@.last().describe(),
    {
        let n = self.redo_stack.len();
        if n == 0 {
            None
        } else {
            Some(self.redo_stack[n - 1].description())
        }
    }

    /// Forgets all history.
    pub fn clear(&mut self)
        ensures
            final(self)@.undo == Seq::<EventCommand>::empty(),
            final(self)@.redo == Seq::<EventCommand>::empty(),
            final(self)@.max_history == old(self)@.max_history,
    {
        self.undo_stack.clear();
        self.redo_stack.clear();
    }
}

/// Recording a command never leaves more than `max_history` commands to undo
/// (nor fewer than before, up to that limit), and the command just recorded
/// is the next one to undo whenever the limit allows any.
pub proof fn lemma_push_respects_limit(h: HistoryView, c: EventCommand)
    ensures
        ({
            let n = history_after_push(h, c).undo.len();
            &&& n <= h.max_history
            &&& n == if h.undo.len() + 1 > h.max_history {
                h.max_history as int
            } else {
                (h.undo.len() + 1) as int
            }
            &&& h.max_history > 0 ==> history_after_push(h, c).undo.last() == c
        }),
{
}

/// An undo followed by a redo, both carried out by the store, puts the
/// command back on top of the undo stack and leaves everything else as it
/// was; only the id that the store gave a re-created event may differ.
pub proof fn lemma_undo_then_redo(h: HistoryView, a: Option<i64>, b: Option<i64>)
    requires
        h.undo.len() > 0,
    ensures
        ({
            let h2 = history_after_redo(history_after_undo(h, Ok(a)), Ok(b));
            &&& h2.redo == h.redo
            &&& h2.max_history == h.max_history
            &&& h2.undo.len() == h.undo.len()
            &&& h2.undo.drop_last() == h.undo.drop_last()
            &&& h2.undo.last() == h.undo.last().after_undo(a).after_redo(b)
            &&& h2.undo.last().describe() == h.undo.last().describe()
        }),
{
    let h1 = history_after_undo(h, Ok(a));
    assert(h1.redo.last() == h.undo.last().after_undo(a));
    assert(h1.redo.drop_last() =~= h.redo);
    let h2 = history_after_redo(h1, Ok(b));
    assert(h2.undo.drop_last() =~= h.undo.drop_last());
}

/// A redo followed by an undo, both carried out by the store, puts the
/// command back on top of the redo stack and leaves everything else as it
/// was; only the id that the store gave a re-created event may differ.
pub proof fn lemma_redo_then_undo(h: HistoryView, a: Option<i64>, b: Option<i64>)
    requires
        h.redo.len() > 0,
    ensures
        ({
            let h2 = history_after_undo(history_after_redo(h, Ok(a)), Ok(b));
            &&& h2.undo == h.undo
            &&& h2.max_history == h.max_history
            &&& h2.redo.len() == h.redo.len()
            &&& h2.redo.drop_last() == h.redo.drop_last()
            &&& h2.redo.last() == h.redo.last().after_redo(a).after_undo(b)
            &&& h2.redo.last().describe() == h.redo.last().describe()
        }),
{
    let h1 = history_after_redo(h, Ok(a));
    assert(h1.undo.last() == h.redo.last().after_redo(a));
    assert(h1.undo.drop_last() =~= h.undo);
    let h2 = history_after_undo(h1, Ok(b));
    assert(h2.redo.drop_last() =~= h.redo.drop_last());
}

/// An update command comes back unchanged from an undo and a redo.
pub proof fn lemma_update_round_trip(c: UpdateEventCommand, a: Option<i64>, b: Option<i64>)
    ensures
        EventCommand::Update(c).after_undo(a).after_redo(b) == EventCommand::Update(c),
        EventCommand::Update(c).after_redo(a).after_undo(b) == EventCommand::Update(c),
{
}

/// Re-applying and reverting a command name opposite store operations:
/// a creation is reverted by deleting the record it made, a deletion by
/// storing the event again, an update by writing back the old version.
pub proof fn lemma_steps_are_inverse(c: EventCommand, id: i64)
    ensures
        c is Create ==> c.after_redo(Some(id)).undo_step() == StoreAction::DeleteEvent(id),
        c is Delete ==> c.after_undo(Some(id)).redo_step() == StoreAction::DeleteEvent(id),
        c is Create ==> c.redo_step() == StoreAction::CreateEvent(c->Create_0.event.with_id(None)),
        c is Delete ==> c.undo_step() == StoreAction::CreateEvent(c->Delete_0.event.with_id(None)),
        c is Update ==> c.undo_step() == StoreAction::UpdateEvent(c->Update_0.old_event)
            && c.redo_step() == StoreAction::UpdateEvent(c->Update_0.new_event),
{
}

/// Neither a failed undo nor a failed redo puts anything on the other stack.
pub proof fn lemma_failed_step_moves_nothing(h: HistoryView, e: String)
    ensures
        history_after_undo(h, Err(e)).redo == h.redo,
        history_after_redo(h, Err(e)).undo == h.undo,
        h.undo.len() > 0 ==> history_after_undo(h, Err(e)).undo == h.undo.drop_last(),
        h.redo.len() > 0 ==> history_after_redo(h, Err(e)).redo == h.redo.drop_last(),
{
}

/// Two events are the same import: equal title, start and end.
pub open spec fn same_import(a: Event, b: Event) -> bool {
    a.title@ == b.title@ && a.start == b.start && a.end == b.end
}

/// Whether an imported event is already among the stored ones: some
/// stored event has its title, start and end.
pub fn is_duplicate_event(existing_events: &[Event], candidate: &Event) -> (r: bool)
    ensures
        r == exists|i: int| 0 <= i < existing_events@.len() && same_import(existing_events@[i], *candidate),
{
    let mut i: usize = 0;
    while i < existing_events.len()
        invariant
            0 <= i <= existing_events@.len(),
            forall|k: int| 0 <= k < i ==> !same_import(existing_events@[k], *candidate),
        decreases existing_events@.len() - i,
    {
        let e = &existing_events[i];
        if e.title == candidate.title && e.start == candidate.start && e.end == candidate.end {
            assert(same_import(existing_events@[i as int], *candidate));
            return true;
        }
        i = i + 1;
    }
    false
}

/// The toast that follows an undo (`is_redo` false) or a redo: the
/// command's description on success, the error on failure, nothing when
/// there was nothing to do.
pub open spec fn history_feedback_spec(is_redo: bool, outcome: Result<Option<String>, String>) -> Option<(ToastLevel, Seq<char>)> {
    match outcome {
        Ok(Some(desc)) => Some((ToastLevel::Info, (if is_redo { "Redone: "@ } else { "Undone: "@ }) + desc@)),
        Ok(None) => None,
        Err(e) => Some((ToastLevel::Error, (if is_redo { "Redo failed: "@ } else { "Undo failed: "@ }) + e@)),
    }
}

/// The toast (level and text) to show after an undo or a redo.
pub fn history_feedback(is_redo: bool, outcome: &Result<Option<String>, String>) -> (r: Option<(ToastLevel, String)>)
    ensures
        match history_feedback_spec(is_redo, *outcome) {
            Some((level, text)) => r is Some && r->Some_0.0 == level && r->Some_0.1@ == text,
            None => r is None,
        },
{
    match outcome {
        Ok(Some(desc)) => {
            let mut s = String::from_str(if is_redo { "Redone: " } else { "Undone: " });
            s.append(desc.as_str());
            Some((ToastLevel::Info, s))
        },
        Ok(None) => None,
        Err(e) => {
            let mut s = String::from_str(if is_redo { "Redo failed: " } else { "Undo failed: " });
            s.append(e.as_str());
            Some((ToastLevel::Error, s))
        },
    }
}

} // verus!
