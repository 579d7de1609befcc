//! The theme dialogs: picking a theme, the custom theme manager, and the
//! editor that creates or changes a custom theme.

use vstd::prelude::*;
use vstd::string::*;
use crate::text::{eq_ignore_ascii_case, same_chars, same_ignoring_ascii_case, trim_str, trimmed};

verus! {

/// A colour with alpha: red, green, blue, alpha.
pub type Rgba = (u8, u8, u8, u8);

/// State of the theme editor; `T` is the theme being edited.
#[derive(Debug)]
pub struct ThemeCreatorState<T> {
    pub is_open: bool,
    /// Editing an existing custom theme rather than creating one.
    pub is_editing: bool,
    /// The name the edited theme had when the editor opened.
    pub original_name: String,
    pub theme_name: String,
    pub theme: T,
    pub validation_error: Option<String>,
}

impl<T> ThemeCreatorState<T> {
    /// A closed editor holding `theme` (the light theme, in the application).
    pub fn new(theme: T) -> (r: Self)
        ensures
            !r.is_open,
            !r.is_editing,
            r.original_name@ == Seq::<char>::empty(),
            r.theme_name@ == Seq::<char>::empty(),
            r.theme == theme,
            r.validation_error is None,
    {
        ThemeCreatorState {
            is_open: false,
            is_editing: false,
            original_name: String::new(),
            theme_name: String::new(),
            theme,
            validation_error: None,
        }
    }

    /// Opens the editor to create a theme starting from `base_theme`.
    pub fn open_create(&mut self, base_theme: T)
        ensures
            final(self).is_open,
            !final(self).is_editing,
            final(self).original_name@ == Seq::<char>::empty(),
            final(self).theme_name@ == Seq::<char>::empty(),
            final(self).theme == base_theme,
            final(self).validation_error is None,
    {
        self.is_open = true;
        self.is_editing = false;
        self.original_name = String::new();
        self.theme_name = String::new();
        self.theme = base_theme;
        self.validation_error = None;
    }

    /// Opens the editor on the custom theme `name`.
    pub fn open_edit(&mut self, name: String, theme: T)
        ensures
            final(self).is_open,
            final(self).is_editing,
            final(self).original_name == name,
            final(self).theme_name == name,
            final(self).theme == theme,
            final(self).validation_error is None,
    {
        self.is_open = true;
        self.is_editing = true;
        self.original_name = name.clone();
        self.theme_name = name;
        self.theme = theme;
        self.validation_error = None;
    }

    /// Takes in the outcome of saving the edited theme: on success the
    /// editor closes; a failure is shown and the editor stays open.
    pub fn finish_save(&mut self, saved: Result<(), String>)
        ensures
            saved is Ok ==> !final(self).is_open && final(self).validation_error is None,
            saved is Err ==> final(self).is_open && final(self).validation_error is Some
                && final(self).validation_error->Some_0@ == "Failed to save: "@ + saved->Err_0@,
            final(self).theme_name == old(self).theme_name,
            final(self).theme == old(self).theme,
    {
        match saved {
            Ok(()) => self.close(),
            Err(e) => {
                let mut msg = String::from_str("Failed to save: ");
                msg.append(e.as_str());
                self.validation_error = Some(msg);
                self.is_open = true;
            },
        }
    }

    pub fn close(&mut self)
        ensures
            !final(self).is_open,
            final(self).validation_error is None,
            final(self).is_editing == old(self).is_editing,
            final(self).original_name == old(self).original_name,
            final(self).theme_name == old(self).theme_name,
            final(self).theme == old(self).theme,
    {
        self.is_open = false;
        self.validation_error = None;
    }
}

/// What the theme editor asks for.
#[derive(Debug)]
pub enum ThemeCreatorAction<T> {
    /// Nothing was asked for.
    NoAction,
    /// Save the theme under the name.
    Save(String, T),
    Cancel,
}

/// State of the custom theme manager.
#[derive(Debug, Clone, Copy, PartialEq, Eq, Structural)]
pub struct ThemeManagerState {
    pub is_open: bool,
}

impl ThemeManagerState {
    pub fn new() -> (r: Self)
        ensures
            !r.is_open,
    {
        ThemeManagerState { is_open: false }
    }

    pub fn open(&mut self)
        ensures
            final(self).is_open,
    {
        self.is_open = true;
    }

    pub fn close(&mut self)
        ensures
            !final(self).is_open,
    {
        self.is_open = false;
    }
}

/// What the theme manager asks for.
#[derive(Debug)]
pub enum ThemeManagerAction {
    /// Nothing was asked for.
    NoAction,
    CreateTheme,
    EditTheme(String),
    DeleteTheme(String),
    ApplyTheme(String),
    Close,
}

/// What the theme dialog asks for.
#[derive(Debug)]
pub enum ThemeDialogAction {
    /// Nothing was asked for.
    NoAction,
    ApplyTheme(String),
    PreviewTheme(String),
    RevertPreview,
    CreateTheme,
    EditTheme(String),
    DeleteTheme(String),
    DuplicateTheme { source: String, new_name: String },
    ExportTheme(String),
    ImportTheme,
    Close,
}

/// State of the theme dialog.
#[derive(Debug)]
pub struct ThemeDialogState {
    pub is_open: bool,
    /// Theme awaiting delete confirmation.
    pub delete_confirm: Option<String>,
    /// The theme that was active when the dialog opened (to undo a preview).
    pub original_theme: Option<String>,
    /// Theme applied for preview.
    pub preview_theme: Option<String>,
    /// Preview swatches of custom themes, one entry per theme name.
    pub custom_theme_colors: Vec<(String, [Rgba; 4])>,
    /// Theme to be duplicated.
    pub duplicate_source: Option<String>,
    /// Name for the duplicate.
    pub duplicate_name: String,
}

/// Index of the first entry named `name`, or the number of entries.
pub open spec fn entry_index(entries: Seq<(String, [Rgba; 4])>, name: Seq<char>) -> int
    decreases entries.len(),
{
    if entries.len() == 0 {
        0
    } else if entries[0].0@ == name {
        0
    } else {
        1 + entry_index(entries.drop_first(), name)
    }
}

proof fn lemma_entry_index(entries: Seq<(String, [Rgba; 4])>, name: Seq<char>)
    ensures
        0 <= entry_index(entries, name) <= entries.len(),
        entry_index(entries, name) < entries.len() ==> entries[entry_index(entries, name)].0@ == name,
        forall|k: int| 0 <= k < entry_index(entries, name) ==> entries[k].0@ != name,
    decreases entries.len(),
{
    if entries.len() > 0 && entries[0].0@ != name {
        lemma_entry_index(entries.drop_first(), name);
        assert forall|k: int| 0 <= k < entry_index(entries, name) implies entries[k].0@ != name by {
            if k > 0 {
                assert(entries[k] == entries.drop_first()[k - 1]);
            }
        }
    }
}

proof fn lemma_entry_index_first(entries: Seq<(String, [Rgba; 4])>, name: Seq<char>, i: int)
    requires
        0 <= i <= entries.len(),
        i < entries.len() ==> entries[i].0@ == name,
        forall|k: int| 0 <= k < i ==> entries[k].0@ != name,
    ensures
        entry_index(entries, name) == i,
    decreases entries.len(),
{
    if entries.len() > 0 && i > 0 {
        assert forall|k: int| 0 <= k < i - 1 implies entries.drop_first()[k].0@ != name by {
            assert(entries.drop_first()[k] == entries[k + 1]);
        }
        lemma_entry_index_first(entries.drop_first(), name, i - 1);
    }
}

impl ThemeDialogState {
    pub fn new() -> (r: Self)
        ensures
            !r.is_open,
            r.delete_confirm is None,
            r.original_theme is None,
            r.preview_theme is None,
            r.custom_theme_colors@ == Seq::<(String, [Rgba; 4])>::empty(),
            r.duplicate_source is None,
            r.duplicate_name@ == Seq::<char>::empty(),
    {
        ThemeDialogState {
            is_open: false,
            delete_confirm: None,
            original_theme: None,
            preview_theme: None,
            custom_theme_colors: Vec::new(),
            duplicate_source: None,
            duplicate_name: String::new(),
        }
    }

    /// Opens the dialog, remembering the active theme to return to after a
    /// preview.
    pub fn open(&mut self, current_theme: &str)
        ensures
            final(self).is_open,
            final(self).original_theme is Some,
            final(self).original_theme->Some_0@ == current_theme@,
            final(self).delete_confirm is None,
            final(self).preview_theme is None,
            final(self).duplicate_source is None,
            final(self).duplicate_name@ == Seq::<char>::empty(),
            final(self).custom_theme_colors@ == old(self).custom_theme_colors@,
    {
        self.is_open = true;
        self.original_theme = Some(String::from_str(current_theme));
        self.delete_confirm = None;
        self.preview_theme = None;
        self.duplicate_source = None;
        self.duplicate_name = String::new();
    }

    pub fn close(&mut self)
        ensures
            !final(self).is_open,
            final(self).delete_confirm is None,
            final(self).preview_theme is None,
            final(self).duplicate_source is None,
            final(self).duplicate_name@ == Seq::<char>::empty(),
            final(self).original_theme == old(self).original_theme,
            final(self).custom_theme_colors@ == old(self).custom_theme_colors@,
    {
        self.is_open = false;
        self.delete_confirm = None;
        self.preview_theme = None;
        self.duplicate_source = None;
        self.duplicate_name = String::new();
    }

    fn find_colors(&self, name: &str) -> (r: usize)
        ensures
            r == entry_index(self.custom_theme_colors@, name@),
    {
        let n = self.custom_theme_colors.len();
        let mut i: usize = 0;
        while i < n
            invariant
                n == self.custom_theme_colors@.len(),
                0 <= i <= n,
                forall|k: int| 0 <= k < i ==> self.custom_theme_colors@[k].0@ != name@,
            decreases n - i,
        {
            if same_chars(self.custom_theme_colors[i].0.as_str(), name) {
                proof {
                    lemma_entry_index_first(self.custom_theme_colors@, name@, i as int);
                }
                return i;
            }
            i = i + 1;
        }
        proof {
            lemma_entry_index_first(self.custom_theme_colors@, name@, n as int);
        }
        n
    }

    /// Remembers the preview swatches of the custom theme `name`, replacing
    /// what was remembered for it.
    pub fn cache_theme_colors(&mut self, name: &str, colors: [Rgba; 4])
        ensures
            ({
                let old_entries = old(self).custom_theme_colors@;
                let i = entry_index(old_entries, name@);
                let entry = final(self).custom_theme_colors@;
                if i < old_entries.len() {
                    entry.len() == old_entries.len() && entry[i].0@ == name@ && entry[i].1 == colors
                        && forall|k: int| 0 <= k < entry.len() && k != i ==> entry[k] == old_entries[k]
                } else {
                    entry.len() == old_entries.len() + 1 && entry.drop_last() == old_entries
                        && entry.last().0@ == name@ && entry.last().1 == colors
                }
            }),
            final(self).is_open == old(self).is_open,
    {
        let i = self.find_colors(name);
        proof {
            lemma_entry_index(self.custom_theme_colors@, name@);
        }
        if i < self.custom_theme_colors.len() {
            let mut entries = Vec::new();
            std::mem::swap(&mut entries, &mut self.custom_theme_colors);
            let ghost before = entries@;
            let (key, _) = entries.remove(i);
            entries.insert(i, (key, colors));
            assert(entries@ =~= before.update(i as int, (key, colors)));
            self.custom_theme_colors = entries;
        } else {
            self.custom_theme_colors.push((String::from_str(name), colors));
        }
    }

    /// Forgets the swatches of the custom theme `name` (it was deleted).
    pub fn forget_theme_colors(&mut self, name: &str)
        ensures
            ({
                let old_entries = old(self).custom_theme_colors@;
                let i = entry_index(old_entries, name@);
                if i < old_entries.len() {
                    final(self).custom_theme_colors@ == old_entries.remove(i)
                } else {
                    final(self).custom_theme_colors@ == old_entries
                }
            }),
            final(self).is_open == old(self).is_open,
    {
        let i = self.find_colors(name);
        if i < self.custom_theme_colors.len() {
            self.custom_theme_colors.remove(i);
        }
    }

    /// The remembered swatches of the custom theme `name`.
    pub fn theme_colors(&self, name: &str) -> (r: Option<[Rgba; 4]>)
        ensures
            ({
                let entries = self.custom_theme_colors@;
                let i = entry_index(entries, name@);
                if i < entries.len() {
                    r == Some(entries[i].1)
                } else {
                    r is None
                }
            }),
    {
        let i = self.find_colors(name);
        if i < self.custom_theme_colors.len() {
            Some(self.custom_theme_colors[i].1)
        } else {
            None
        }
    }
}

/// Caching swatches for a theme and then asking for them gives them back.
pub proof fn lemma_cached_colors_read_back(
    before: Seq<(String, [Rgba; 4])>,
    after: Seq<(String, [Rgba; 4])>,
    name: Seq<char>,
    colors: [Rgba; 4],
)
    requires
        ({
            let i = entry_index(before, name);
            if i < before.len() {
                after.len() == before.len() && after[i].0@ == name && after[i].1 == colors
                    && forall|k: int| 0 <= k < after.len() && k != i ==> after[k] == before[k]
            } else {
                after.len() == before.len() + 1 && after.drop_last() == before && after.last().0@
                    == name && after.last().1 == colors
            }
        }),
    ensures
        entry_index(after, name) < after.len(),
        after[entry_index(after, name)].1 == colors,
{
    lemma_entry_index(before, name);
    let i = entry_index(before, name);
    if i < before.len() {
        assert forall|k: int| 0 <= k < i implies after[k].0@ != name by {
            assert(after[k] == before[k]);
        }
        lemma_entry_index_first(after, name, i);
    } else {
        assert forall|k: int| 0 <= k < before.len() implies after[k].0@ != name by {
            assert(after[k] == after.drop_last()[k]);
        }
        lemma_entry_index_first(after, name, before.len() as int);
    }
}

/// The name a duplicated theme gets from the name typed in: the trimmed
/// text, when something is left of it and the typed name is not a built-in
/// theme's (`is_builtin`, the theme catalogue's answer for the typed name);
/// otherwise no duplicate can be made.
pub fn duplicate_theme_name(input: &str, is_builtin: bool) -> (r: Option<String>)
    ensures
        r is Some <==> trimmed(input@).len() > 0 && !is_builtin,
        r matches Some(n) ==> n@ == trimmed(input@),
{
    let t = trim_str(input);
    if t.unicode_len() == 0 || is_builtin {
        None
    } else {
        Some(t.to_owned())
    }
}

/// The theme setting after the custom theme `deleted` was deleted: the
/// light theme when the current one was it (names compared ignoring ASCII
/// case), otherwise unchanged.
pub fn theme_after_delete(current: &str, deleted: &str) -> (r: Option<String>)
    ensures
        same_ignoring_ascii_case(current@, deleted@) ==> r is Some && r->Some_0@ == "Light"@,
        !same_ignoring_ascii_case(current@, deleted@) ==> r is None,
{
    if eq_ignore_ascii_case(current, deleted) {
        Some(String::from_str("Light"))
    } else {
        None
    }
}

} // verus!
