//! The event category manager: create, edit and delete categories.
//!
//! Saving talks to the category store twice: first to ask whether the name
//! is taken, then to write the category. The state machine below says what
//! to ask and what each answer does to the dialog.

use vstd::prelude::*;
use vstd::string::*;
use crate::colors::{hex_color_ok, is_valid_hex_color};
use crate::text::{trimmed, trim_str};

verus! {

/// An event category.
#[derive(Debug)]
pub struct Category {
    pub id: Option<i64>,
    pub name: String,
    /// Hex colour, such as `#3B82F6`.
    pub color: String,
    pub icon: Option<String>,
    /// Built-in categories keep their name.
    pub is_system: bool,
}

impl Category {
    /// A new, not yet stored, user category.
    pub fn new(name: &str, color: &str) -> (r: Category)
        ensures
            r.id is None,
            r.name@ == name@,
            r.color@ == color@,
            r.icon is None,
            !r.is_system,
    {
        Category {
            id: None,
            name: String::from_str(name),
            color: String::from_str(color),
            icon: None,
            is_system: false,
        }
    }

    pub fn duplicate(&self) -> (r: Category)
        ensures
            r == *self,
    {
        Category {
            id: self.id,
            name: self.name.clone(),
            color: self.color.clone(),
            icon: match &self.icon {
                Some(i) => Some(i.clone()),
                None => None,
            },
            is_system: self.is_system,
        }
    }
}

/// The colour a new category starts with.
pub open spec fn default_category_color() -> Seq<char> {
    "#3B82F6"@
}

/// State of the category manager dialog.
#[derive(Debug)]
pub struct CategoryManagerState {
    pub open: bool,
    /// The category being edited; `None` while creating a new one.
    pub editing_category: Option<Category>,
    pub name_input: String,
    pub color_input: String,
    pub icon_input: String,
    pub error_message: Option<String>,
    pub success_message: Option<String>,
    /// Category awaiting delete confirmation: id, name, number of events using it.
    pub delete_pending: Option<(i64, String, i32)>,
    /// The category list should be reloaded.
    pub needs_refresh: bool,
}

/// What the dialog reports to the application.
#[derive(Debug, Clone, Copy, PartialEq, Eq, Structural)]
pub struct CategoryManagerResponse {
    /// Categories were created or changed.
    pub categories_changed: bool,
}

impl CategoryManagerResponse {
    pub fn new() -> (r: Self)
        ensures
            !r.categories_changed,
    {
        CategoryManagerResponse { categories_changed: false }
    }
}

/// Whether the category being edited can be deleted: a stored category
/// that is not built in.
pub open spec fn deletable_category(editing: Option<Category>) -> bool {
    editing is Some && !editing->Some_0.is_system && editing->Some_0.id is Some
}

/// The store call that the second step of a save asks for.
#[derive(Debug)]
pub enum CategoryWrite {
    /// Nothing to write: the save was refused.
    NoWrite,
    /// Overwrite the stored category.
    Update(Category),
    /// Store a new category.
    Create(Category),
}

/// The icon input, trimmed, or `None` when blank.
pub open spec fn icon_from_input(icon: Seq<char>) -> Option<Seq<char>> {
    if trimmed(icon).len() == 0 {
        None
    } else {
        Some(trimmed(icon))
    }
}

pub open spec fn opt_text(o: Option<String>) -> Option<Seq<char>> {
    match o {
        Some(s) => Some(s@),
        None => None,
    }
}

impl CategoryManagerState {
    /// Inputs reset: empty name and icon, the default colour.
    pub open spec fn inputs_cleared(&self) -> bool {
        &&& self.name_input@ == Seq::<char>::empty()
        &&& self.color_input@ == default_category_color()
        &&& self.icon_input@ == Seq::<char>::empty()
    }

    pub fn new() -> (r: Self)
        ensures
            !r.open,
            r.editing_category is None,
            r.name_input@ == Seq::<char>::empty(),
            r.color_input@ == Seq::<char>::empty(),
            r.icon_input@ == Seq::<char>::empty(),
            r.error_message is None,
            r.success_message is None,
            r.delete_pending is None,
            !r.needs_refresh,
    {
        CategoryManagerState {
            open: false,
            editing_category: None,
            name_input: String::new(),
            color_input: String::new(),
            icon_input: String::new(),
            error_message: None,
            success_message: None,
            delete_pending: None,
            needs_refresh: false,
        }
    }

    fn clear_inputs(&mut self)
        ensures
            final(self).inputs_cleared(),
            final(self).open == old(self).open,
            final(self).editing_category == old(self).editing_category,
            final(self).error_message == old(self).error_message,
            final(self).success_message == old(self).success_message,
            final(self).delete_pending == old(self).delete_pending,
            final(self).needs_refresh == old(self).needs_refresh,
    {
        self.name_input = String::new();
        self.color_input = String::from_str("#3B82F6");
        self.icon_input = String::new();
    }

    /// Opens the dialog on a fresh "new category" form and asks for the list.
    pub fn open(&mut self)
        ensures
            final(self).open,
            final(self).editing_category is None,
            final(self).inputs_cleared(),
            final(self).error_message is None,
            final(self).success_message is None,
            final(self).delete_pending is None,
            final(self).needs_refresh,
    {
        self.open = true;
        self.editing_category = None;
        self.clear_inputs();
        self.error_message = None;
        self.success_message = None;
        self.delete_pending = None;
        self.needs_refresh = true;
    }

    /// Closes the dialog, dropping the form; messages stay.
    pub fn close(&mut self)
        ensures
            !final(self).open,
            final(self).editing_category is None,
            final(self).inputs_cleared(),
            final(self).delete_pending is None,
            final(self).error_message == old(self).error_message,
            final(self).success_message == old(self).success_message,
            final(self).needs_refresh == old(self).needs_refresh,
    {
        self.open = false;
        self.editing_category = None;
        self.clear_inputs();
        self.delete_pending = None;
    }

    /// Loads a category into the form for editing.
    pub fn start_edit(&mut self, category: Category)
        ensures
            final(self).name_input@ == category.name@,
            final(self).color_input@ == category.color@,
            final(self).icon_input@ == match category.icon {
                Some(i) => i@,
                None => Seq::<char>::empty(),
            },
            final(self).editing_category == Some(category),
            final(self).error_message is None,
            final(self).success_message is None,
            final(self).open == old(self).open,
            final(self).delete_pending == old(self).delete_pending,
            final(self).needs_refresh == old(self).needs_refresh,
    {
        self.name_input = category.name.clone();
        self.color_input = category.color.clone();
        self.icon_input = match &category.icon {
            Some(i) => i.clone(),
            None => String::new(),
        };
        self.editing_category = Some(category);
        self.error_message = None;
        self.success_message = None;
    }

    /// Switches the form to creating a new category.
    pub fn start_new(&mut self)
        ensures
            final(self).editing_category is None,
            final(self).inputs_cleared(),
            final(self).error_message is None,
            final(self).success_message is None,
            final(self).open == old(self).open,
            final(self).delete_pending == old(self).delete_pending,
            final(self).needs_refresh == old(self).needs_refresh,
    {
        self.editing_category = None;
        self.clear_inputs();
        self.error_message = None;
        self.success_message = None;
    }

    /// First step of a save: checks the inputs. On success it answers the
    /// trimmed name and the id to leave out of the duplicate-name check; on
    /// a blank name or a malformed colour it sets the error and answers `None`.
    pub fn begin_save(&mut self) -> (r: Option<(String, Option<i64>)>)
        ensures
            final(self).success_message is None,
            trimmed(old(self).name_input@).len() == 0 ==> r is None
                && opt_text(final(self).error_message) == Some("Name cannot be empty"@),
            trimmed(old(self).name_input@).len() > 0 && !hex_color_ok(old(self).color_input@)
                ==> r is None && opt_text(final(self).error_message) == Some("Invalid color format"@),
            trimmed(old(self).name_input@).len() > 0 && hex_color_ok(old(self).color_input@) ==> {
                &&& final(self).error_message is None
                &&& r is Some
                &&& r->Some_0.0@ == trimmed(old(self).name_input@)
                &&& r->Some_0.1 == match old(self).editing_category {
                    Some(c) => c.id,
                    None => None,
                }
            },
            final(self).open == old(self).open,
            final(self).editing_category == old(self).editing_category,
            final(self).name_input == old(self).name_input,
            final(self).color_input == old(self).color_input,
            final(self).icon_input == old(self).icon_input,
            final(self).delete_pending == old(self).delete_pending,
            final(self).needs_refresh == old(self).needs_refresh,
    {
        self.error_message = None;
        self.success_message = None;
        let name = trim_str(self.name_input.as_str());
        if name.unicode_len() == 0 {
            self.error_message = Some(String::from_str("Name cannot be empty"));
            return None;
        }
        if !is_valid_hex_color(self.color_input.as_str()) {
            self.error_message = Some(String::from_str("Invalid color format"));
            return None;
        }
        let exclude_id = match &self.editing_category {
            Some(c) => c.id,
            None => None,
        };
        Some((name.to_owned(), exclude_id))
    }

    /// Second step of a save, once the store has said whether another
    /// category already has the name. A taken name sets the error and asks
    /// for nothing. Otherwise an edited category takes the name (unless it
    /// is built in), the colour and the trimmed icon and is written back; a
    /// new category is created from the inputs.
    pub fn continue_save(&mut self, name_taken: bool) -> (r: CategoryWrite)
        ensures
            name_taken ==> r is NoWrite && opt_text(final(self).error_message) == Some(
                "A category with this name already exists"@,
            ) && final(self).editing_category == old(self).editing_category,
            !name_taken ==> final(self).error_message == old(self).error_message,
            !name_taken && old(self).editing_category is Some ==> {
                let old_cat = old(self).editing_category->Some_0;
                let new_cat = final(self).editing_category->Some_0;
                &&& final(self).editing_category is Some
                &&& new_cat.id == old_cat.id
                &&& new_cat.is_system == old_cat.is_system
                &&& new_cat.name@ == if old_cat.is_system {
                    old_cat.name@
                } else {
                    trimmed(old(self).name_input@)
                }
                &&& new_cat.color@ == old(self).color_input@
                &&& opt_text(new_cat.icon) == icon_from_input(old(self).icon_input@)
                &&& r == CategoryWrite::Update(new_cat)
            },
            !name_taken && old(self).editing_category is None ==> {
                &&& final(self).editing_category is None
                &&& r is Create
                &&& r->Create_0.id is None
                &&& !r->Create_0.is_system
                &&& r->Create_0.name@ == trimmed(old(self).name_input@)
                &&& r->Create_0.color@ == old(self).color_input@
                &&& opt_text(r->Create_0.icon) == icon_from_input(old(self).icon_input@)
            },
            final(self).open == old(self).open,
            final(self).name_input == old(self).name_input,
            final(self).color_input == old(self).color_input,
            final(self).icon_input == old(self).icon_input,
            final(self).success_message == old(self).success_message,
            final(self).delete_pending == old(self).delete_pending,
            final(self).needs_refresh == old(self).needs_refresh,
    {
        if name_taken {
            self.error_message = Some(String::from_str("A category with this name already exists"));
            return CategoryWrite::NoWrite;
        }
        let name = trim_str(self.name_input.as_str());
        let icon_text = trim_str(self.icon_input.as_str());
        let icon = if icon_text.unicode_len() == 0 {
            None
        } else {
            Some(icon_text.to_owned())
        };
        match &mut self.editing_category {
            Some(editing) => {
                if !editing.is_system {
                    editing.name = name.to_owned();
                }
                editing.color = self.color_input.clone();
                editing.icon = icon;
                CategoryWrite::Update(editing.duplicate())
            },
            None => {
                let mut new_cat = Category::new(name, self.color_input.as_str());
                new_cat.icon = icon;
                CategoryWrite::Create(new_cat)
            },
        }
    }

    /// Last step of a save: the store's answer to the write. An update
    /// reports "Category updated"; a creation reports the created name and
    /// loads the created category for editing; either marks the list for
    /// reloading and the categories as changed. A failure sets the error.
    pub fn finish_save(&mut self, outcome: Result<Category, String>, response: &mut CategoryManagerResponse)
        ensures
            outcome is Err && old(self).editing_category is Some ==> opt_text(
                final(self).error_message,
            ) == Some("Failed to update: "@ + outcome->Err_0@) && *final(response) == *old(
                response,
            ) && final(self).editing_category == old(self).editing_category,
            outcome is Err && old(self).editing_category is None ==> opt_text(
                final(self).error_message,
            ) == Some("Failed to create: "@ + outcome->Err_0@) && *final(response) == *old(
                response,
            ) && final(self).editing_category is None,
            outcome is Ok && old(self).editing_category is Some ==> {
                &&& opt_text(final(self).success_message) == Some("Category updated"@)
                &&& final(response).categories_changed
                &&& final(self).needs_refresh
                &&& final(self).editing_category == old(self).editing_category
            },
            outcome is Ok && old(self).editing_category is None ==> {
                &&& opt_text(final(self).success_message) == None::<Seq<char>>
                &&& final(response).categories_changed
                &&& final(self).needs_refresh
                &&& final(self).editing_category == Some(outcome->Ok_0)
                &&& final(self).name_input@ == outcome->Ok_0.name@
            },
            final(self).open == old(self).open,
            final(self).delete_pending == old(self).delete_pending,
    {
        let updating = self.editing_category.is_some();
        match outcome {
            Ok(created) => {
                response.categories_changed = true;
                self.needs_refresh = true;
                if updating {
                    self.success_message = Some(String::from_str("Category updated"));
                } else {
                    self.start_edit(created);
                }
            },
            Err(e) => {
                let prefix = if updating {
                    "Failed to update: "
                } else {
                    "Failed to create: "
                };
                let mut msg = String::from_str(prefix);
                msg.append(e.as_str());
                self.error_message = Some(msg);
            },
        }
    }

    /// Asks to delete the category being edited, used by `usage` events:
    /// only a stored, user-made category can be deleted; the confirmation
    /// names it by its stored name.
    pub fn request_delete(&mut self, usage: i32)
        ensures
            deletable_category(old(self).editing_category) ==> {
                &&& final(self).delete_pending is Some
                &&& final(self).delete_pending->Some_0.0 == old(self).editing_category->Some_0.id->Some_0
                &&& final(self).delete_pending->Some_0.1@ == old(self).editing_category->Some_0.name@
                &&& final(self).delete_pending->Some_0.2 == usage
            },
            !deletable_category(old(self).editing_category) ==> final(self).delete_pending
                == old(self).delete_pending,
            final(self).open == old(self).open,
            final(self).editing_category == old(self).editing_category,
            final(self).name_input == old(self).name_input,
            final(self).color_input == old(self).color_input,
            final(self).icon_input == old(self).icon_input,
            final(self).error_message == old(self).error_message,
            final(self).success_message == old(self).success_message,
            final(self).needs_refresh == old(self).needs_refresh,
    {
        match &self.editing_category {
            Some(c) => {
                if !c.is_system {
                    match c.id {
                        Some(id) => {
                            self.delete_pending = Some((id, c.name.clone(), usage));
                        },
                        None => {},
                    }
                }
            },
            None => {},
        }
    }

    /// The store's answer to a confirmed delete. On success the categories
    /// changed, the list is marked for reloading and the form goes back to
    /// a new category (which clears the messages); a failure reports
    /// "Failed to delete: " and the error. Either way the confirmation is
    /// gone.
    pub fn finish_delete(&mut self, deleted: Result<(), String>, response: &mut CategoryManagerResponse)
        ensures
            final(self).delete_pending is None,
            deleted is Ok ==> {
                &&& final(response).categories_changed
                &&& final(self).needs_refresh
                &&& final(self).editing_category is None
                &&& final(self).inputs_cleared()
                &&& final(self).error_message is None
                &&& final(self).success_message is None
            },
            deleted is Err ==> {
                &&& *final(response) == *old(response)
                &&& opt_text(final(self).error_message) == Some("Failed to delete: "@ + deleted->Err_0@)
                &&& final(self).success_message == old(self).success_message
                &&& final(self).editing_category == old(self).editing_category
                &&& final(self).name_input == old(self).name_input
                &&& final(self).color_input == old(self).color_input
                &&& final(self).icon_input == old(self).icon_input
                &&& final(self).needs_refresh == old(self).needs_refresh
            },
            final(self).open == old(self).open,
    {
        match deleted {
            Ok(()) => {
                response.categories_changed = true;
                self.needs_refresh = true;
                self.start_new();
            },
            Err(e) => {
                let mut msg = String::from_str("Failed to delete: ");
                msg.append(e.as_str());
                self.error_message = Some(msg);
            },
        }
        self.delete_pending = None;
    }
}

} // verus!
