//! The countdown card template manager: reusable looks for countdown cards.
//!
//! A template's visuals and default card size are held as they come
//! (`Vis` and `D`; the application keeps them in floating point); the
//! decisions of the dialog are on names and ids.

use vstd::prelude::*;
use vstd::string::*;
use crate::dialogs::category_manager::opt_text;
use crate::text::{eq_ignore_ascii_case, same_ignoring_ascii_case, trim_str, trimmed};

verus! {

/// Identifier of a countdown card template.
#[derive(Debug, Clone, Copy, PartialEq, Eq, Hash, Structural)]
pub struct CountdownCardTemplateId(pub u64);

/// A countdown card template.
#[derive(Debug)]
pub struct CountdownCardTemplate<Vis, D> {
    pub id: CountdownCardTemplateId,
    pub name: String,
    pub visuals: Vis,
    pub default_card_width: D,
    pub default_card_height: D,
}

/// State of the countdown template manager dialog.
#[derive(Debug)]
pub struct CountdownTemplateManagerState<Vis, D> {
    pub open: bool,
    /// The template being edited; `None` while creating a new one.
    pub editing_template_id: Option<CountdownCardTemplateId>,
    pub name_input: String,
    pub visuals: Vis,
    pub default_card_width: D,
    pub default_card_height: D,
    pub error_message: Option<String>,
    pub success_message: Option<String>,
    /// Template awaiting delete confirmation: id and name.
    pub delete_pending: Option<(CountdownCardTemplateId, String)>,
}

/// What the template manager reports to the application.
#[derive(Debug, Clone, Copy, PartialEq, Eq, Structural)]
pub struct CountdownTemplateManagerResponse {
    /// Templates were changed; the caller should save them.
    pub templates_changed: bool,
}

impl CountdownTemplateManagerResponse {
    pub fn new() -> (r: Self)
        ensures
            !r.templates_changed,
    {
        CountdownTemplateManagerResponse { templates_changed: false }
    }
}

/// The write a save asks of the countdown service; the visuals and the
/// default card size written are the form's.
#[derive(Debug)]
pub enum CountdownTemplateWrite {
    /// Overwrite the template with this id, under this name.
    Update(CountdownCardTemplateId, String),
    /// Add a template with this name; the service gives it its id.
    Create(String),
}

/// Whether a template other than the one being edited has `name`, up to
/// ASCII case.
pub open spec fn template_name_taken(
    templates: Seq<(CountdownCardTemplateId, String)>,
    name: Seq<char>,
    editing: Option<CountdownCardTemplateId>,
) -> bool {
    exists|i: int|
        0 <= i < templates.len() && #[trigger] same_ignoring_ascii_case(templates[i].1@, name)
            && editing != Some(templates[i].0)
}

/// Whether a template with id `id` is listed.
pub open spec fn template_listed(templates: Seq<(CountdownCardTemplateId, String)>, id: CountdownCardTemplateId) -> bool {
    exists|i: int| 0 <= i < templates.len() && #[trigger] templates[i].0 == id
}

/// Whether the template being edited can be deleted: it exists and is not
/// the default one.
pub open spec fn template_deletable(
    editing: Option<CountdownCardTemplateId>,
    default_id: CountdownCardTemplateId,
) -> bool {
    editing is Some && editing->Some_0 != default_id
}

impl<Vis, D> CountdownTemplateManagerState<Vis, D> {
    /// The form holds the given blank visuals and card size, and no name.
    pub open spec fn form_is(&self, visuals: Vis, width: D, height: D) -> bool {
        &&& self.name_input@ == Seq::<char>::empty()
        &&& self.visuals == visuals
        &&& self.default_card_width == width
        &&& self.default_card_height == height
    }

    /// A closed dialog with the types' default visuals and sizes.
    pub fn new(visuals: Vis, width: D, height: D) -> (r: Self)
        ensures
            !r.open,
            r.editing_template_id is None,
            r.form_is(visuals, width, height),
            r.error_message is None,
            r.success_message is None,
            r.delete_pending is None,
    {
        CountdownTemplateManagerState {
            open: false,
            editing_template_id: None,
            name_input: String::new(),
            visuals,
            default_card_width: width,
            default_card_height: height,
            error_message: None,
            success_message: None,
            delete_pending: None,
        }
    }

    /// Empties the form: no name, the blank visuals and card size given.
    fn clear_inputs(&mut self, visuals: Vis, width: D, height: D)
        ensures
            final(self).form_is(visuals, width, height),
            final(self).open == old(self).open,
            final(self).editing_template_id == old(self).editing_template_id,
            final(self).error_message == old(self).error_message,
            final(self).success_message == old(self).success_message,
            final(self).delete_pending == old(self).delete_pending,
    {
        self.name_input = String::new();
        self.visuals = visuals;
        self.default_card_width = width;
        self.default_card_height = height;
    }

    /// Opens the dialog on a fresh "new template" form with the blank
    /// visuals and card size given.
    pub fn open(&mut self, visuals: Vis, width: D, height: D)
        ensures
            final(self).open,
            final(self).editing_template_id is None,
            final(self).form_is(visuals, width, height),
            final(self).error_message is None,
            final(self).success_message is None,
            final(self).delete_pending is None,
    {
        self.open = true;
        self.editing_template_id = None;
        self.clear_inputs(visuals, width, height);
        self.error_message = None;
        self.success_message = None;
        self.delete_pending = None;
    }

    /// Closes the dialog, emptying the form; messages stay.
    pub fn close(&mut self, visuals: Vis, width: D, height: D)
        ensures
            !final(self).open,
            final(self).editing_template_id is None,
            final(self).form_is(visuals, width, height),
            final(self).delete_pending is None,
            final(self).error_message == old(self).error_message,
            final(self).success_message == old(self).success_message,
    {
        self.open = false;
        self.editing_template_id = None;
        self.clear_inputs(visuals, width, height);
        self.delete_pending = None;
    }

    /// Loads a template into the form for editing.
    pub fn start_edit(&mut self, tmpl: CountdownCardTemplate<Vis, D>)
        ensures
            final(self).editing_template_id == Some(tmpl.id),
            final(self).name_input == tmpl.name,
            final(self).visuals == tmpl.visuals,
            final(self).default_card_width == tmpl.default_card_width,
            final(self).default_card_height == tmpl.default_card_height,
            final(self).error_message is None,
            final(self).success_message is None,
            final(self).open == old(self).open,
            final(self).delete_pending == old(self).delete_pending,
    {
        self.editing_template_id = Some(tmpl.id);
        self.name_input = tmpl.name;
        self.visuals = tmpl.visuals;
        self.default_card_width = tmpl.default_card_width;
        self.default_card_height = tmpl.default_card_height;
        self.error_message = None;
        self.success_message = None;
    }

    /// Switches the form to creating a new template.
    pub fn start_new(&mut self, visuals: Vis, width: D, height: D)
        ensures
            final(self).editing_template_id is None,
            final(self).form_is(visuals, width, height),
            final(self).error_message is None,
            final(self).success_message is None,
            final(self).open == old(self).open,
            final(self).delete_pending == old(self).delete_pending,
    {
        self.editing_template_id = None;
        self.clear_inputs(visuals, width, height);
        self.error_message = None;
        self.success_message = None;
    }

    /// A save of the form, given the templates the service holds (id and
    /// name). The messages are cleared; a blank name, a name another
    /// template has (up to ASCII case) and an edited template that is gone
    /// are refused with their message as the error. Otherwise the write is
    /// answered, with the trimmed name: an update reported as "Template
    /// updated", or a creation reported as created.
    pub fn begin_template_save(&mut self, templates: &Vec<(CountdownCardTemplateId, String)>) -> (r: Result<
        CountdownTemplateWrite,
        String,
    >)
        ensures
            ({
                let name = trimmed(old(self).name_input@);
                let editing = old(self).editing_template_id;
                let taken = template_name_taken(templates@, name, editing);
                &&& name.len() == 0 ==> r is Err && r->Err_0@ == "Name cannot be empty"@
                &&& name.len() > 0 && taken ==> r is Err && r->Err_0@
                    == "A template with this name already exists"@
                &&& name.len() > 0 && !taken && editing is Some && !template_listed(
                    templates@,
                    editing->Some_0,
                ) ==> r is Err && r->Err_0@ == "Template not found"@
                &&& name.len() > 0 && !taken && editing is Some && template_listed(
                    templates@,
                    editing->Some_0,
                ) ==> {
                    &&& r is Ok
                    &&& r->Ok_0 is Update
                    &&& r->Ok_0->Update_0 == editing->Some_0
                    &&& r->Ok_0->Update_1@ == name
                    &&& opt_text(final(self).success_message) == Some("Template updated"@)
                }
                &&& name.len() > 0 && !taken && editing is None ==> {
                    &&& r is Ok
                    &&& r->Ok_0 is Create
                    &&& r->Ok_0->Create_0@ == name
                    &&& opt_text(final(self).success_message) == Some("Created '"@ + name + "'"@)
                }
            }),
            r is Err ==> opt_text(final(self).error_message) == Some(r->Err_0@),
            r is Err ==> final(self).success_message is None,
            r is Ok ==> final(self).error_message is None,
            final(self).open == old(self).open,
            final(self).editing_template_id == old(self).editing_template_id,
            final(self).name_input == old(self).name_input,
            final(self).visuals == old(self).visuals,
            final(self).default_card_width == old(self).default_card_width,
            final(self).default_card_height == old(self).default_card_height,
            final(self).delete_pending == old(self).delete_pending,
    {
        self.error_message = None;
        self.success_message = None;
        let name = trim_str(self.name_input.as_str());
        if name.unicode_len() == 0 {
            self.error_message = Some(String::from_str("Name cannot be empty"));
            return Err(String::from_str("Name cannot be empty"));
        }
        let editing = self.editing_template_id;
        let mut listed = false;
        let mut i: usize = 0;
        while i < templates.len()
            invariant
                0 <= i <= templates@.len(),
                name@ == trimmed(old(self).name_input@),
                name@.len() > 0,
                editing == old(self).editing_template_id,
                self.success_message is None,
                self.error_message is None,
                self.open == old(self).open,
                self.editing_template_id == old(self).editing_template_id,
                self.name_input == old(self).name_input,
                self.visuals == old(self).visuals,
                self.default_card_width == old(self).default_card_width,
                self.default_card_height == old(self).default_card_height,
                self.delete_pending == old(self).delete_pending,
                forall|k: int|
                    0 <= k < i ==> !(#[trigger] same_ignoring_ascii_case(templates@[k].1@, name@)
                        && editing != Some(templates@[k].0)),
                listed <==> (editing is Some && exists|k: int|
                    0 <= k < i && #[trigger] templates@[k].0 == editing->Some_0),
            decreases templates@.len() - i,
        {
            let other = match editing {
                Some(eid) => eid != templates[i].0,
                None => true,
            };
            if eq_ignore_ascii_case(templates[i].1.as_str(), name) && other {
                assert(same_ignoring_ascii_case(templates@[i as int].1@, name@));
                assert(editing != Some(templates@[i as int].0));
                assert(template_name_taken(templates@, name@, editing));
                self.error_message = Some(String::from_str("A template with this name already exists"));
                return Err(String::from_str("A template with this name already exists"));
            }
            if !other {
                listed = true;
            }
            i = i + 1;
        }
        assert(editing is Some ==> (template_listed(templates@, editing->Some_0) <==> listed));
        match editing {
            Some(id) => {
                if !listed {
                    self.error_message = Some(String::from_str("Template not found"));
                    return Err(String::from_str("Template not found"));
                }
                self.success_message = Some(String::from_str("Template updated"));
                Ok(CountdownTemplateWrite::Update(id, name.to_owned()))
            },
            None => {
                let mut msg = String::from_str("Created '");
                msg.append(name);
                msg.append("'");
                self.success_message = Some(msg);
                Ok(CountdownTemplateWrite::Create(name.to_owned()))
            },
        }
    }

    /// After a creation, the template the service stored (found by the id
    /// it gave) is loaded into the form, as `start_edit` does; when it is
    /// not found the form stays as it is.
    pub fn finish_create(&mut self, stored: Option<CountdownCardTemplate<Vis, D>>)
        ensures
            stored is None ==> *final(self) == *old(self),
            stored is Some ==> {
                let t = stored->Some_0;
                &&& final(self).editing_template_id == Some(t.id)
                &&& final(self).name_input == t.name
                &&& final(self).visuals == t.visuals
                &&& final(self).default_card_width == t.default_card_width
                &&& final(self).default_card_height == t.default_card_height
                &&& final(self).error_message is None
                &&& final(self).success_message is None
                &&& final(self).open == old(self).open
                &&& final(self).delete_pending == old(self).delete_pending
            },
    {
        match stored {
            Some(t) => self.start_edit(t),
            None => {},
        }
    }

    /// Asks to delete the template being edited: only an existing template
    /// other than the default one can be deleted; the confirmation names it
    /// by the name in the form.
    pub fn request_delete(&mut self, default_id: CountdownCardTemplateId)
        ensures
            template_deletable(old(self).editing_template_id, default_id) ==> {
                &&& final(self).delete_pending is Some
                &&& final(self).delete_pending->Some_0.0 == old(self).editing_template_id->Some_0
                &&& final(self).delete_pending->Some_0.1@ == old(self).name_input@
            },
            !template_deletable(old(self).editing_template_id, default_id) ==> final(self).delete_pending
                == old(self).delete_pending,
            final(self).open == old(self).open,
            final(self).editing_template_id == old(self).editing_template_id,
            final(self).name_input == old(self).name_input,
            final(self).visuals == old(self).visuals,
            final(self).default_card_width == old(self).default_card_width,
            final(self).default_card_height == old(self).default_card_height,
            final(self).error_message == old(self).error_message,
            final(self).success_message == old(self).success_message,
    {
        match self.editing_template_id {
            Some(id) => {
                if id != default_id {
                    self.delete_pending = Some((id, self.name_input.clone()));
                }
            },
            None => {},
        }
    }

    /// The answer to a confirmed delete: when the service removed the
    /// template, the templates changed and the form goes back to a new
    /// template with the blank visuals and size given (which clears the
    /// messages); otherwise "Failed to delete template". Either way the
    /// confirmation is gone. Answers whether the templates changed.
    pub fn finish_delete(&mut self, removed: bool, visuals: Vis, width: D, height: D) -> (changed: bool)
        ensures
            changed == removed,
            final(self).delete_pending is None,
            removed ==> {
                &&& final(self).editing_template_id is None
                &&& final(self).form_is(visuals, width, height)
                &&& final(self).error_message is None
                &&& final(self).success_message is None
            },
            !removed ==> {
                &&& opt_text(final(self).error_message) == Some("Failed to delete template"@)
                &&& final(self).success_message == old(self).success_message
                &&& final(self).editing_template_id == old(self).editing_template_id
                &&& final(self).name_input == old(self).name_input
                &&& final(self).visuals == old(self).visuals
                &&& final(self).default_card_width == old(self).default_card_width
                &&& final(self).default_card_height == old(self).default_card_height
            },
            final(self).open == old(self).open,
    {
        if removed {
            self.start_new(visuals, width, height);
        } else {
            self.error_message = Some(String::from_str("Failed to delete template"));
        }
        self.delete_pending = None;
        removed
    }
}

} // verus!
