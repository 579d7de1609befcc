//! The event template manager: named presets from which new events are made.

use vstd::prelude::*;
use vstd::string::*;
use crate::commands::LocalDateTime;
use crate::text::{trimmed, trim_str};

verus! {

/// A stored event template.
#[derive(Debug)]
pub struct EventTemplate {
    pub id: Option<i64>,
    pub name: String,
    pub title: String,
    pub description: Option<String>,
    pub location: Option<String>,
    /// Length of events made from the template.
    pub duration_minutes: i32,
    pub all_day: bool,
    pub category: Option<String>,
    pub color: Option<String>,
    pub recurrence_rule: Option<String>,
    pub created_at: Option<LocalDateTime>,
}

/// The form for one template.
#[derive(Debug)]
pub struct TemplateEditState {
    pub id: Option<i64>,
    pub name: String,
    pub title: String,
    pub description: String,
    pub location: String,
    pub duration_hours: u32,
    pub duration_minutes: u32,
    pub all_day: bool,
    pub category: String,
    pub color: String,
}

/// The colour a new template starts with.
pub open spec fn default_template_color() -> Seq<char> {
    "#3B82F6"@
}

/// The text of an optional field, or empty.
pub open spec fn text_or_empty(o: Option<String>) -> Seq<char> {
    match o {
        Some(s) => s@,
        None => Seq::empty(),
    }
}

/// A text field as an optional value: `None` when empty.
pub open spec fn none_if_empty(s: Seq<char>) -> Option<Seq<char>> {
    if s.len() == 0 {
        None
    } else {
        Some(s)
    }
}

pub open spec fn opt_text(o: Option<String>) -> Option<Seq<char>> {
    match o {
        Some(s) => Some(s@),
        None => None,
    }
}

fn text_or_empty_of(o: &Option<String>) -> (r: String)
    ensures
        r@ == text_or_empty(*o),
{
    match o {
        Some(s) => s.clone(),
        None => String::new(),
    }
}

fn none_if_empty_of(s: &String) -> (r: Option<String>)
    ensures
        opt_text(r) == none_if_empty(s@),
{
    if s.as_str().unicode_len() == 0 {
        None
    } else {
        Some(s.clone())
    }
}

/// What `validate` answers for a form.
pub open spec fn template_validation(t: TemplateEditState) -> Result<(), Seq<char>> {
    if trimmed(t.name@).len() == 0 {
        Err("Template name is required"@)
    } else if trimmed(t.title@).len() == 0 {
        Err("Event title is required"@)
    } else if !t.all_day && t.duration_hours == 0 && t.duration_minutes == 0 {
        Err("Duration must be at least 1 minute"@)
    } else {
        Ok(())
    }
}

impl TemplateEditState {
    /// The form shows the template: missing texts as empty, a missing
    /// colour as the default, the length split into hours and minutes.
    pub open spec fn is_form_of(self, template: EventTemplate) -> bool {
        &&& self.id == template.id
        &&& self.name == template.name
        &&& self.title == template.title
        &&& self.description@ == text_or_empty(template.description)
        &&& self.location@ == text_or_empty(template.location)
        &&& self.duration_hours == (template.duration_minutes as u32) / 60
        &&& self.duration_minutes == (template.duration_minutes as u32) % 60
        &&& self.all_day == template.all_day
        &&& self.category@ == text_or_empty(template.category)
        &&& self.color@ == match template.color {
            Some(c) => c@,
            None => default_template_color(),
        }
    }

    /// The template the form writes: empty texts as `None`; an all-day
    /// template lasts a day, any other at least a minute.
    pub open spec fn writes(self, r: EventTemplate) -> bool {
        &&& r.id == self.id
        &&& r.name == self.name
        &&& r.title == self.title
        &&& opt_text(r.description) == none_if_empty(self.description@)
        &&& opt_text(r.location) == none_if_empty(self.location@)
        &&& r.duration_minutes == if self.all_day {
            1440
        } else {
            let d = ((self.duration_hours * 60 + self.duration_minutes) as u32) as i32;
            if d < 1 {
                1
            } else {
                d
            }
        }
        &&& r.all_day == self.all_day
        &&& opt_text(r.category) == none_if_empty(self.category@)
        &&& opt_text(r.color) == none_if_empty(self.color@)
        &&& r.recurrence_rule is None
        &&& r.created_at is None
    }
}

/// A stored text is never the empty string.
pub open spec fn no_empty_text(o: Option<String>) -> bool {
    o matches Some(s) ==> s@.len() > 0
}

/// Reading a template into the form and writing the form back gives the
/// same template, when the template is one the form could have written:
/// no empty texts, a colour, no recurrence or creation time, and a length
/// of at least a minute (exactly a day when it is all-day).
pub proof fn lemma_template_round_trip(t: EventTemplate, form: TemplateEditState, back: EventTemplate)
    requires
        no_empty_text(t.description),
        no_empty_text(t.location),
        no_empty_text(t.category),
        t.color is Some && no_empty_text(t.color),
        t.recurrence_rule is None,
        t.created_at is None,
        if t.all_day { t.duration_minutes == 1440 } else { t.duration_minutes >= 1 },
        form.is_form_of(t),
        form.writes(back),
    ensures
        back.id == t.id,
        back.name == t.name,
        back.title == t.title,
        opt_text(back.description) == opt_text(t.description),
        opt_text(back.location) == opt_text(t.location),
        opt_text(back.category) == opt_text(t.category),
        opt_text(back.color) == opt_text(t.color),
        back.duration_minutes == t.duration_minutes,
        back.all_day == t.all_day,
        back.recurrence_rule == t.recurrence_rule,
        back.created_at == t.created_at,
{
    if !t.all_day {
        let d = t.duration_minutes;
        assert(d as u32 == d as int);
        let total = (d as u32) / 60 * 60 + (d as u32) % 60;
        assert(total == d as int);
        assert(((total as u32) as i32) == d);
    }
}

impl TemplateEditState {
    /// A blank form: one hour long, the default colour.
    pub fn new() -> (r: Self)
        ensures
            r.id is None,
            r.name@ == Seq::<char>::empty(),
            r.title@ == Seq::<char>::empty(),
            r.description@ == Seq::<char>::empty(),
            r.location@ == Seq::<char>::empty(),
            r.duration_hours == 1,
            r.duration_minutes == 0,
            !r.all_day,
            r.category@ == Seq::<char>::empty(),
            r.color@ == default_template_color(),
    {
        TemplateEditState {
            id: None,
            name: String::new(),
            title: String::new(),
            description: String::new(),
            location: String::new(),
            duration_hours: 1,
            duration_minutes: 0,
            all_day: false,
            category: String::new(),
            color: String::from_str("#3B82F6"),
        }
    }

    /// A blank form whose length is the given number of minutes.
    pub fn new_with_duration(default_duration_minutes: u32) -> (r: Self)
        ensures
            r.id is None,
            r.name@ == Seq::<char>::empty(),
            r.title@ == Seq::<char>::empty(),
            r.description@ == Seq::<char>::empty(),
            r.location@ == Seq::<char>::empty(),
            r.duration_hours == default_duration_minutes / 60,
            r.duration_minutes == default_duration_minutes % 60,
            !r.all_day,
            r.category@ == Seq::<char>::empty(),
            r.color@ == default_template_color(),
    {
        TemplateEditState {
            id: None,
            name: String::new(),
            title: String::new(),
            description: String::new(),
            location: String::new(),
            duration_hours: default_duration_minutes / 60,
            duration_minutes: default_duration_minutes % 60,
            all_day: false,
            category: String::new(),
            color: String::from_str("#3B82F6"),
        }
    }

    /// The form for a stored template; missing texts become empty, a
    /// missing colour becomes the default.
    pub fn from_template(template: &EventTemplate) -> (r: Self)
        ensures
            r.is_form_of(*template),
    {
        let total_minutes = template.duration_minutes as u32;
        TemplateEditState {
            id: template.id,
            name: template.name.clone(),
            title: template.title.clone(),
            description: text_or_empty_of(&template.description),
            location: text_or_empty_of(&template.location),
            duration_hours: total_minutes / 60,
            duration_minutes: total_minutes % 60,
            all_day: template.all_day,
            category: text_or_empty_of(&template.category),
            color: match &template.color {
                Some(c) => c.clone(),
                None => String::from_str("#3B82F6"),
            },
        }
    }

    /// The template the form describes: empty texts become `None`; an
    /// all-day template lasts a day, any other at least a minute.
    pub fn to_template(&self) -> (r: EventTemplate)
        requires
            self.duration_hours * 60 + self.duration_minutes <= u32::MAX,
        ensures
            self.writes(r),
    {
        let duration_minutes = (self.duration_hours * 60 + self.duration_minutes) as i32;
        EventTemplate {
            id: self.id,
            name: self.name.clone(),
            title: self.title.clone(),
            description: none_if_empty_of(&self.description),
            location: none_if_empty_of(&self.location),
            duration_minutes: if self.all_day {
                24 * 60
            } else if duration_minutes < 1 {
                1
            } else {
                duration_minutes
            },
            all_day: self.all_day,
            category: none_if_empty_of(&self.category),
            color: none_if_empty_of(&self.color),
            recurrence_rule: None,
            created_at: None,
        }
    }

    /// Checks the form: a name and an event title are needed, and a timed
    /// template must last at least a minute.
    pub fn validate(&self) -> (r: Result<(), String>)
        ensures
            r is Ok <==> template_validation(*self) is Ok,
            r is Err ==> r->Err_0@ == template_validation(*self)->Err_0,
    {
        if trim_str(self.name.as_str()).unicode_len() == 0 {
            return Err(String::from_str("Template name is required"));
        }
        if trim_str(self.title.as_str()).unicode_len() == 0 {
            return Err(String::from_str("Event title is required"));
        }
        if !self.all_day && self.duration_hours == 0 && self.duration_minutes == 0 {
            return Err(String::from_str("Duration must be at least 1 minute"));
        }
        Ok(())
    }
}

impl Default for TemplateEditState {
    fn default() -> (r: Self)
        ensures
            r.id is None,
            r.duration_hours == 1,
            r.duration_minutes == 0,
            !r.all_day,
            r.color@ == default_template_color(),
    {
        Self::new()
    }
}

/// State of the template manager dialog.
#[derive(Debug)]
pub struct TemplateManagerState {
    pub is_open: bool,
    pub templates: Vec<EventTemplate>,
    pub selected_template_id: Option<i64>,
    pub editing_template: Option<TemplateEditState>,
    pub error_message: Option<String>,
    pub needs_refresh: bool,
}

impl TemplateManagerState {
    pub fn new() -> (r: Self)
        ensures
            !r.is_open,
            r.templates@ == Seq::<EventTemplate>::empty(),
            r.selected_template_id is None,
            r.editing_template is None,
            r.error_message is None,
            !r.needs_refresh,
    {
        TemplateManagerState {
            is_open: false,
            templates: Vec::new(),
            selected_template_id: None,
            editing_template: None,
            error_message: None,
            needs_refresh: false,
        }
    }

    /// Takes in the answer of the template store's listing: the list on
    /// success, otherwise an error message (the old list stays).
    pub fn refresh_templates(&mut self, loaded: Result<Vec<EventTemplate>, String>)
        ensures
            loaded is Ok ==> final(self).templates@ == loaded->Ok_0@ && !final(self).needs_refresh
                && final(self).error_message == old(self).error_message,
            loaded is Err ==> final(self).templates@ == old(self).templates@
                && final(self).needs_refresh == old(self).needs_refresh && opt_text(
                final(self).error_message,
            ) == Some("Failed to load templates: "@ + loaded->Err_0@),
            final(self).is_open == old(self).is_open,
            final(self).selected_template_id == old(self).selected_template_id,
            final(self).editing_template == old(self).editing_template,
    {
        match loaded {
            Ok(templates) => {
                self.templates = templates;
                self.needs_refresh = false;
            },
            Err(e) => {
                let mut msg = String::from_str("Failed to load templates: ");
                msg.append(e.as_str());
                self.error_message = Some(msg);
            },
        }
    }

    /// Opens the dialog with the store's listing; nothing is selected or
    /// edited, and no error is shown (a failed listing keeps the old list).
    pub fn open(&mut self, loaded: Result<Vec<EventTemplate>, String>)
        ensures
            final(self).is_open,
            loaded is Ok ==> final(self).templates@ == loaded->Ok_0@ && !final(self).needs_refresh,
            loaded is Err ==> final(self).templates@ == old(self).templates@
                && final(self).needs_refresh == old(self).needs_refresh,
            final(self).selected_template_id is None,
            final(self).editing_template is None,
            final(self).error_message is None,
    {
        self.is_open = true;
        self.refresh_templates(loaded);
        self.selected_template_id = None;
        self.editing_template = None;
        self.error_message = None;
    }

    pub fn close(&mut self)
        ensures
            !final(self).is_open,
            final(self).editing_template is None,
            final(self).error_message is None,
            final(self).templates@ == old(self).templates@,
            final(self).selected_template_id == old(self).selected_template_id,
            final(self).needs_refresh == old(self).needs_refresh,
    {
        self.is_open = false;
        self.editing_template = None;
        self.error_message = None;
    }

    /// Starts a new template lasting the given number of minutes.
    pub fn start_new_template(&mut self, default_duration_minutes: u32)
        ensures
            final(self).editing_template is Some,
            final(self).editing_template->Some_0.id is None,
            final(self).editing_template->Some_0.name@ == Seq::<char>::empty(),
            final(self).editing_template->Some_0.title@ == Seq::<char>::empty(),
            final(self).editing_template->Some_0.description@ == Seq::<char>::empty(),
            final(self).editing_template->Some_0.location@ == Seq::<char>::empty(),
            final(self).editing_template->Some_0.duration_hours == default_duration_minutes / 60,
            final(self).editing_template->Some_0.duration_minutes == default_duration_minutes % 60,
            !final(self).editing_template->Some_0.all_day,
            final(self).editing_template->Some_0.category@ == Seq::<char>::empty(),
            final(self).editing_template->Some_0.color@ == default_template_color(),
            final(self).error_message is None,
            final(self).is_open == old(self).is_open,
            final(self).templates@ == old(self).templates@,
            final(self).selected_template_id == old(self).selected_template_id,
            final(self).needs_refresh == old(self).needs_refresh,
    {
        self.editing_template = Some(TemplateEditState::new_with_duration(default_duration_minutes));
        self.error_message = None;
    }

    /// Starts editing a stored template.
    pub fn start_edit_template(&mut self, template: &EventTemplate)
        ensures
            final(self).editing_template is Some,
            final(self).editing_template->Some_0.is_form_of(*template),
            final(self).error_message is None,
            final(self).is_open == old(self).is_open,
            final(self).templates@ == old(self).templates@,
            final(self).selected_template_id == old(self).selected_template_id,
            final(self).needs_refresh == old(self).needs_refresh,
    {
        self.editing_template = Some(TemplateEditState::from_template(template));
        self.error_message = None;
    }

    /// First step of saving the form: its checks. A failed check shows its
    /// message and asks for nothing; otherwise the template the form
    /// describes is answered, to be checked for a taken name and stored.
    /// The form stays open either way.
    pub fn begin_save(&mut self) -> (r: Option<EventTemplate>)
        requires
            old(self).editing_template matches Some(e) ==> e.duration_hours * 60 + e.duration_minutes
                <= u32::MAX,
        ensures
            old(self).editing_template is None ==> r is None && *final(self) == *old(self),
            old(self).editing_template is Some ==> {
                let e = old(self).editing_template->Some_0;
                &&& template_validation(e) is Err ==> r is None && opt_text(final(self).error_message)
                    == Some(template_validation(e)->Err_0)
                &&& template_validation(e) is Ok ==> r is Some && e.writes(r->Some_0)
                    && final(self).error_message == old(self).error_message
            },
            final(self).editing_template == old(self).editing_template,
            final(self).is_open == old(self).is_open,
            final(self).templates@ == old(self).templates@,
            final(self).selected_template_id == old(self).selected_template_id,
            final(self).needs_refresh == old(self).needs_refresh,
    {
        match &self.editing_template {
            None => None,
            Some(e) => {
                match e.validate() {
                    Err(m) => {
                        self.error_message = Some(m);
                        None
                    },
                    Ok(()) => Some(e.to_template()),
                }
            },
        }
    }

    /// Last step of saving: whether the store found the name taken by
    /// another template, and otherwise its answer to the create or update.
    /// A taken name and a failed write show their message and keep the
    /// form; a stored template closes the form and asks for the list again.
    pub fn finish_save(&mut self, name_taken: bool, stored: Result<(), String>)
        ensures
            name_taken ==> opt_text(final(self).error_message) == Some(
                "A template with this name already exists"@,
            ) && final(self).editing_template == old(self).editing_template && final(self).needs_refresh
                == old(self).needs_refresh,
            !name_taken && stored is Ok ==> final(self).editing_template is None
                && final(self).needs_refresh && final(self).error_message is None,
            !name_taken && stored is Err ==> opt_text(final(self).error_message) == Some(
                "Save failed: "@ + stored->Err_0@,
            ) && final(self).editing_template == old(self).editing_template && final(self).needs_refresh
                == old(self).needs_refresh,
            final(self).is_open == old(self).is_open,
            final(self).templates@ == old(self).templates@,
            final(self).selected_template_id == old(self).selected_template_id,
    {
        if name_taken {
            self.error_message = Some(String::from_str("A template with this name already exists"));
            return;
        }
        match stored {
            Ok(()) => {
                self.editing_template = None;
                self.needs_refresh = true;
                self.error_message = None;
            },
            Err(e) => {
                let mut msg = String::from_str("Save failed: ");
                msg.append(e.as_str());
                self.error_message = Some(msg);
            },
        }
    }

    /// Drops the form and its error.
    pub fn cancel_edit(&mut self)
        ensures
            final(self).editing_template is None,
            final(self).error_message is None,
            final(self).is_open == old(self).is_open,
            final(self).templates@ == old(self).templates@,
            final(self).selected_template_id == old(self).selected_template_id,
            final(self).needs_refresh == old(self).needs_refresh,
    {
        self.editing_template = None;
        self.error_message = None;
    }

    /// The store's answer to deleting a listed template: a failure shows
    /// "Delete failed: " and the error; a success asks for the list again.
    pub fn finish_delete(&mut self, deleted: Result<(), String>)
        ensures
            deleted is Err ==> opt_text(final(self).error_message) == Some(
                "Delete failed: "@ + deleted->Err_0@,
            ) && final(self).needs_refresh == old(self).needs_refresh,
            deleted is Ok ==> final(self).needs_refresh && final(self).error_message == old(
                self,
            ).error_message,
            final(self).editing_template == old(self).editing_template,
            final(self).is_open == old(self).is_open,
            final(self).templates@ == old(self).templates@,
            final(self).selected_template_id == old(self).selected_template_id,
    {
        match deleted {
            Ok(()) => {
                self.needs_refresh = true;
            },
            Err(e) => {
                let mut msg = String::from_str("Delete failed: ");
                msg.append(e.as_str());
                self.error_message = Some(msg);
            },
        }
    }
}

} // verus!
