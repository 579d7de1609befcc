//! The countdown category manager: categories that group countdown cards
//! (separate from event categories).

use vstd::prelude::*;
use vstd::string::*;
use crate::countdown::CountdownCategoryId;
use crate::status_text::{push_signed, signed_dec};
use crate::dialogs::category_manager::opt_text;
use crate::text::{
    eq_ignore_ascii_case, parse_i32_str, parse_i32_text, same_ignoring_ascii_case, trim_str, trimmed,
};

verus! {

/// A countdown category.
#[derive(Debug)]
pub struct CountdownCategory {
    pub id: CountdownCategoryId,
    pub name: String,
    /// Position among the categories, smallest first.
    pub display_order: i32,
}

/// The write a save asks of the countdown service.
#[derive(Debug)]
pub enum CountdownCategoryWrite {
    /// Overwrite the category with this id: its name (kept for the default
    /// category) and display order.
    Update(CountdownCategory),
    /// Add a category with this name and display order; the service gives
    /// it its id.
    Create(String, i32),
}

/// The display order typed in, trimmed and read as an `i32`; 0 when it
/// does not read as one.
pub open spec fn order_from_input(s: Seq<char>) -> i32 {
    match parse_i32_text(trimmed(s)) {
        Some(v) => v as i32,
        None => 0,
    }
}

/// Whether a category other than the one being edited has `name`, up to
/// ASCII case.
pub open spec fn category_name_taken(
    cats: Seq<CountdownCategory>,
    name: Seq<char>,
    editing: Option<CountdownCategoryId>,
) -> bool {
    exists|i: int|
        0 <= i < cats.len() && #[trigger] same_ignoring_ascii_case(cats[i].name@, name) && editing
            != Some(cats[i].id)
}

/// Index of the first category with id `id`, or the number of categories.
pub open spec fn category_index(cats: Seq<CountdownCategory>, id: CountdownCategoryId) -> int
    decreases cats.len(),
{
    if cats.len() == 0 {
        0
    } else if cats[0].id == id {
        0
    } else {
        1 + category_index(cats.drop_first(), id)
    }
}

proof fn lemma_category_index_first(cats: Seq<CountdownCategory>, id: CountdownCategoryId, i: int)
    requires
        0 <= i <= cats.len(),
        i < cats.len() ==> cats[i].id == id,
        forall|k: int| 0 <= k < i ==> cats[k].id != id,
    ensures
        category_index(cats, id) == i,
    decreases cats.len(),
{
    if cats.len() > 0 && i > 0 {
        assert forall|k: int| 0 <= k < i - 1 implies cats.drop_first()[k].id != id by {
            assert(cats.drop_first()[k] == cats[k + 1]);
        }
        lemma_category_index_first(cats.drop_first(), id, i - 1);
    }
}

/// Whether the category being edited can be deleted: it exists and is not
/// the default one.
pub open spec fn deletable(editing: Option<CountdownCategoryId>, default_id: CountdownCategoryId) -> bool {
    editing is Some && editing->Some_0 != default_id
}

/// State of the countdown category manager dialog.
#[derive(Debug)]
pub struct CountdownCategoryManagerState {
    pub open: bool,
    /// The category being edited; `None` while creating a new one.
    pub editing_category_id: Option<CountdownCategoryId>,
    pub name_input: String,
    pub display_order_input: String,
    pub error_message: Option<String>,
    pub success_message: Option<String>,
    /// Category awaiting delete confirmation: id, name, number of cards in it.
    pub delete_pending: Option<(CountdownCategoryId, String, usize)>,
}

/// What the dialog reports to the application.
#[derive(Debug, Clone, Copy, PartialEq, Eq, Structural)]
pub struct CountdownCategoryManagerResponse {
    /// Categories were changed; the caller should save them.
    pub categories_changed: bool,
}

impl CountdownCategoryManagerResponse {
    pub fn new() -> (r: Self)
        ensures
            !r.categories_changed,
    {
        CountdownCategoryManagerResponse { categories_changed: false }
    }
}

impl CountdownCategoryManagerState {
    /// Inputs reset: empty name, display order "0".
    pub open spec fn inputs_cleared(&self) -> bool {
        &&& self.name_input@ == Seq::<char>::empty()
        &&& self.display_order_input@ == "0"@
    }

    pub fn new() -> (r: Self)
        ensures
            !r.open,
            r.editing_category_id is None,
            r.name_input@ == Seq::<char>::empty(),
            r.display_order_input@ == Seq::<char>::empty(),
            r.error_message is None,
            r.success_message is None,
            r.delete_pending is None,
    {
        CountdownCategoryManagerState {
            open: false,
            editing_category_id: None,
            name_input: String::new(),
            display_order_input: String::new(),
            error_message: None,
            success_message: None,
            delete_pending: None,
        }
    }

    fn clear_inputs(&mut self)
        ensures
            final(self).inputs_cleared(),
            final(self).open == old(self).open,
            final(self).editing_category_id == old(self).editing_category_id,
            final(self).error_message == old(self).error_message,
            final(self).success_message == old(self).success_message,
            final(self).delete_pending == old(self).delete_pending,
    {
        self.name_input = String::new();
        self.display_order_input = String::from_str("0");
    }

    /// Opens the dialog on a fresh "new category" form.
    pub fn open(&mut self)
        ensures
            final(self).open,
            final(self).editing_category_id is None,
            final(self).inputs_cleared(),
            final(self).error_message is None,
            final(self).success_message is None,
            final(self).delete_pending is None,
    {
        self.open = true;
        self.editing_category_id = None;
        self.clear_inputs();
        self.error_message = None;
        self.success_message = None;
        self.delete_pending = None;
    }

    /// Closes the dialog, dropping the form; messages stay.
    pub fn close(&mut self)
        ensures
            !final(self).open,
            final(self).editing_category_id is None,
            final(self).inputs_cleared(),
            final(self).delete_pending is None,
            final(self).error_message == old(self).error_message,
            final(self).success_message == old(self).success_message,
    {
        self.open = false;
        self.editing_category_id = None;
        self.clear_inputs();
        self.delete_pending = None;
    }

    /// Loads a category into the form for editing.
    pub fn start_edit(&mut self, category: &CountdownCategory)
        ensures
            final(self).name_input@ == category.name@,
            final(self).display_order_input@ == signed_dec(category.display_order as int),
            final(self).editing_category_id == Some(category.id),
            final(self).error_message is None,
            final(self).success_message is None,
            final(self).open == old(self).open,
            final(self).delete_pending == old(self).delete_pending,
    {
        self.name_input = category.name.clone();
        let mut order = String::new();
        push_signed(&mut order, category.display_order as i64);
        self.display_order_input = order;
        self.editing_category_id = Some(category.id);
        self.error_message = None;
        self.success_message = None;
    }

    /// Switches the form to creating a new category.
    pub fn start_new(&mut self)
        ensures
            final(self).editing_category_id is None,
            final(self).inputs_cleared(),
            final(self).error_message is None,
            final(self).success_message is None,
            final(self).open == old(self).open,
            final(self).delete_pending == old(self).delete_pending,
    {
        self.editing_category_id = None;
        self.clear_inputs();
        self.error_message = None;
        self.success_message = None;
    }

    /// A save of the form, given the categories the service holds and the
    /// id of the default category. The messages are cleared; a blank name,
    /// a name another category has (up to ASCII case) and an edited
    /// category that is gone are refused with their message as the error.
    /// Otherwise the write is answered: the edited category with the
    /// trimmed name (the default category keeps its name) and the display
    /// order typed in (0 when unreadable), reported as "Category updated";
    /// or a new category, reported as created.
    pub fn begin_save(&mut self, categories: &Vec<CountdownCategory>, default_id: CountdownCategoryId) -> (r:
        Result<CountdownCategoryWrite, String>)
        ensures
            ({
                let name = trimmed(old(self).name_input@);
                let order = order_from_input(old(self).display_order_input@);
                let editing = old(self).editing_category_id;
                let taken = category_name_taken(categories@, name, editing);
                let id = editing->Some_0;
                &&& name.len() == 0 ==> r is Err && r->Err_0@ == "Name cannot be empty"@
                &&& name.len() > 0 && taken ==> r is Err && r->Err_0@
                    == "A category with this name already exists"@
                &&& name.len() > 0 && !taken && editing is Some && category_index(categories@, id)
                    == categories@.len() ==> r is Err && r->Err_0@ == "Category not found"@
                &&& name.len() > 0 && !taken && editing is Some && category_index(categories@, id)
                    < categories@.len() ==> {
                    &&& r is Ok
                    &&& r->Ok_0 is Update
                    &&& r->Ok_0->Update_0.id == id
                    &&& r->Ok_0->Update_0.name@ == if id == default_id {
                        categories@[category_index(categories@, id)].name@
                    } else {
                        name
                    }
                    &&& r->Ok_0->Update_0.display_order == order
                    &&& opt_text(final(self).success_message) == Some("Category updated"@)
                }
                &&& name.len() > 0 && !taken && editing is None ==> {
                    &&& r is Ok
                    &&& r->Ok_0 is Create
                    &&& r->Ok_0->Create_0@ == name
                    &&& r->Ok_0->Create_1 == order
                    &&& opt_text(final(self).success_message) == Some("Created '"@ + name + "'"@)
                }
            }),
            r is Err ==> opt_text(final(self).error_message) == Some(r->Err_0@),
            r is Err ==> final(self).success_message is None,
            r is Ok ==> final(self).error_message is None,
            final(self).open == old(self).open,
            final(self).editing_category_id == old(self).editing_category_id,
            final(self).name_input == old(self).name_input,
            final(self).display_order_input == old(self).display_order_input,
            final(self).delete_pending == old(self).delete_pending,
    {
        self.error_message = None;
        self.success_message = None;
        let name = trim_str(self.name_input.as_str());
        if name.unicode_len() == 0 {
            self.error_message = Some(String::from_str("Name cannot be empty"));
            return Err(String::from_str("Name cannot be empty"));
        }
        let order: i32 = match parse_i32_str(trim_str(self.display_order_input.as_str())) {
            Some(v) => v,
            None => 0,
        };
        let editing = self.editing_category_id;
        let mut i: usize = 0;
        while i < categories.len()
            invariant
                0 <= i <= categories@.len(),
                name@ == trimmed(old(self).name_input@),
                name@.len() > 0,
                editing == old(self).editing_category_id,
                self.success_message is None,
                self.error_message is None,
                self.open == old(self).open,
                self.editing_category_id == old(self).editing_category_id,
                self.name_input == old(self).name_input,
                self.display_order_input == old(self).display_order_input,
                self.delete_pending == old(self).delete_pending,
                order == order_from_input(old(self).display_order_input@),
                forall|k: int|
                    0 <= k < i ==> !(#[trigger] same_ignoring_ascii_case(categories@[k].name@, name@)
                        && editing != Some(categories@[k].id)),
            decreases categories@.len() - i,
        {
            let other = match editing {
                Some(eid) => eid != categories[i].id,
                None => true,
            };
            if eq_ignore_ascii_case(categories[i].name.as_str(), name) && other {
                assert(same_ignoring_ascii_case(categories@[i as int].name@, name@));
                assert(editing != Some(categories@[i as int].id));
                assert(category_name_taken(categories@, name@, editing));
                self.error_message = Some(String::from_str("A category with this name already exists"));
                return Err(String::from_str("A category with this name already exists"));
            }
            i = i + 1;
        }
        match editing {
            Some(id) => {
                let mut k: usize = 0;
                while k < categories.len() && categories[k].id != id
                    invariant
                        0 <= k <= categories@.len(),
                        forall|j: int| 0 <= j < k ==> categories@[j].id != id,
                        self.success_message is None,
                        self.error_message is None,
                        self.open == old(self).open,
                        self.editing_category_id == old(self).editing_category_id,
                        self.name_input == old(self).name_input,
                        self.display_order_input == old(self).display_order_input,
                        self.delete_pending == old(self).delete_pending,
                        name@ == trimmed(old(self).name_input@),
                        order == order_from_input(old(self).display_order_input@),
                        editing == old(self).editing_category_id,
                    decreases categories@.len() - k,
                {
                    k = k + 1;
                }
                proof {
                    lemma_category_index_first(categories@, id, k as int);
                }
                if k == categories.len() {
                    self.error_message = Some(String::from_str("Category not found"));
                    return Err(String::from_str("Category not found"));
                }
                let new_name = if id == default_id {
                    categories[k].name.clone()
                } else {
                    name.to_owned()
                };
                self.success_message = Some(String::from_str("Category updated"));
                Ok(CountdownCategoryWrite::Update(CountdownCategory { id, name: new_name, display_order: order }))
            },
            None => {
                let mut msg = String::from_str("Created '");
                msg.append(name);
                msg.append("'");
                self.success_message = Some(msg);
                Ok(CountdownCategoryWrite::Create(name.to_owned(), order))
            },
        }
    }

    /// After a creation, the category the service stored (found by the id
    /// it gave) is loaded into the form, as `start_edit` does; when it is
    /// not found the form stays as it is.
    pub fn finish_create(&mut self, stored: Option<&CountdownCategory>)
        ensures
            stored is None ==> *final(self) == *old(self),
            stored matches Some(c) ==> {
                &&& final(self).name_input@ == c.name@
                &&& final(self).display_order_input@ == signed_dec(c.display_order as int)
                &&& final(self).editing_category_id == Some(c.id)
                &&& final(self).error_message is None
                &&& final(self).success_message is None
                &&& final(self).open == old(self).open
                &&& final(self).delete_pending == old(self).delete_pending
            },
    {
        match stored {
            Some(c) => self.start_edit(c),
            None => {},
        }
    }

    /// Asks to delete the category being edited, which holds `card_count`
    /// cards: only an existing category other than the default one can be
    /// deleted; the confirmation names it by the name in the form.
    pub fn request_delete(&mut self, default_id: CountdownCategoryId, card_count: usize)
        ensures
            deletable(old(self).editing_category_id, default_id) ==> {
                &&& final(self).delete_pending is Some
                &&& final(self).delete_pending->Some_0.0 == old(self).editing_category_id->Some_0
                &&& final(self).delete_pending->Some_0.1@ == old(self).name_input@
                &&& final(self).delete_pending->Some_0.2 == card_count
            },
            !deletable(old(self).editing_category_id, default_id) ==> final(self).delete_pending
                == old(self).delete_pending,
            final(self).open == old(self).open,
            final(self).editing_category_id == old(self).editing_category_id,
            final(self).name_input == old(self).name_input,
            final(self).display_order_input == old(self).display_order_input,
            final(self).error_message == old(self).error_message,
            final(self).success_message == old(self).success_message,
    {
        match self.editing_category_id {
            Some(id) => {
                if id != default_id {
                    self.delete_pending = Some((id, self.name_input.clone(), card_count));
                }
            },
            None => {},
        }
    }

    /// The answer to a confirmed delete: when the service removed the
    /// category, the categories changed and the form goes back to a new
    /// category (which clears the messages); otherwise "Failed to delete
    /// category". Either way the confirmation is gone. Answers whether the
    /// categories changed.
    pub fn finish_delete(&mut self, removed: bool) -> (changed: bool)
        ensures
            changed == removed,
            final(self).delete_pending is None,
            removed ==> {
                &&& final(self).editing_category_id is None
                &&& final(self).inputs_cleared()
                &&& final(self).error_message is None
                &&& final(self).success_message is None
            },
            !removed ==> {
                &&& opt_text(final(self).error_message) == Some("Failed to delete category"@)
                &&& final(self).success_message == old(self).success_message
                &&& final(self).editing_category_id == old(self).editing_category_id
                &&& final(self).name_input == old(self).name_input
                &&& final(self).display_order_input == old(self).display_order_input
            },
            final(self).open == old(self).open,
    {
        if removed {
            self.start_new();
        } else {
            self.error_message = Some(String::from_str("Failed to delete category"));
        }
        self.delete_pending = None;
        removed
    }
}

} // verus!
