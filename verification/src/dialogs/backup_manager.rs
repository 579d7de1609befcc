//! The backup manager: list, create, restore and delete database backups.
//!
//! The file operations are the caller's; each method here takes the
//! outcome of the operation it stands for and updates the dialog.

use vstd::prelude::*;
use vstd::string::*;

verus! {

/// A backup file.
#[derive(Debug)]
pub struct BackupInfo {
    /// Full path of the backup file.
    pub path: String,
    /// File name shown to the user.
    pub filename: String,
}

pub open spec fn opt_text(o: Option<String>) -> Option<Seq<char>> {
    match o {
        Some(s) => Some(s@),
        None => None,
    }
}

/// State of the backup manager dialog.
#[derive(Debug)]
pub struct BackupManagerState {
    pub show_dialog: bool,
    backups: Vec<BackupInfo>,
    error_message: Option<String>,
    success_message: Option<String>,
    confirm_restore_index: Option<usize>,
    confirm_delete_index: Option<usize>,
    db_path: String,
}

fn with_prefix(prefix: &str, text: &str) -> (r: String)
    ensures
        r@ == prefix@ + text@,
{
    let mut s = String::from_str(prefix);
    s.append(text);
    s
}

impl BackupManagerState {
    pub closed spec fn spec_shown(&self) -> bool {
        self.show_dialog
    }

    pub closed spec fn spec_backups(&self) -> Seq<BackupInfo> {
        self.backups@
    }

    pub closed spec fn spec_error(&self) -> Option<Seq<char>> {
        opt_text(self.error_message)
    }

    pub closed spec fn spec_success(&self) -> Option<Seq<char>> {
        opt_text(self.success_message)
    }

    pub closed spec fn spec_confirm_restore(&self) -> Option<usize> {
        self.confirm_restore_index
    }

    pub closed spec fn spec_confirm_delete(&self) -> Option<usize> {
        self.confirm_delete_index
    }

    pub closed spec fn spec_db_path(&self) -> Seq<char> {
        self.db_path@
    }

    /// A closed dialog for the database at `db_path`, with the backups the
    /// listing found (none when it failed).
    pub fn new(db_path: String, listed: Result<Vec<BackupInfo>, String>) -> (r: Self)
        ensures
            !r.spec_shown(),
            listed is Ok ==> r.spec_backups() == listed->Ok_0@,
            listed is Err ==> r.spec_backups() == Seq::<BackupInfo>::empty(),
            r.spec_error() is None,
            r.spec_success() is None,
            r.spec_confirm_restore() is None,
            r.spec_confirm_delete() is None,
            r.spec_db_path() == db_path@,
    {
        let backups = match listed {
            Ok(v) => v,
            Err(_) => Vec::new(),
        };
        BackupManagerState {
            show_dialog: false,
            backups,
            error_message: None,
            success_message: None,
            confirm_restore_index: None,
            confirm_delete_index: None,
            db_path,
        }
    }

    pub fn backups(&self) -> (r: &Vec<BackupInfo>)
        ensures
            r@ == self.spec_backups(),
    {
        &self.backups
    }

    pub fn error_message(&self) -> (r: Option<&String>)
        ensures
            match r {
                Some(s) => self.spec_error() == Some(s@),
                None => self.spec_error() is None,
            },
    {
        match &self.error_message {
            Some(s) => Some(s),
            None => None,
        }
    }

    pub fn success_message(&self) -> (r: Option<&String>)
        ensures
            match r {
                Some(s) => self.spec_success() == Some(s@),
                None => self.spec_success() is None,
            },
    {
        match &self.success_message {
            Some(s) => Some(s),
            None => None,
        }
    }

    pub fn db_path(&self) -> (r: &String)
        ensures
            r@ == self.spec_db_path(),
    {
        &self.db_path
    }

    pub fn confirm_restore_index(&self) -> (r: Option<usize>)
        ensures
            r == self.spec_confirm_restore(),
    {
        self.confirm_restore_index
    }

    pub fn confirm_delete_index(&self) -> (r: Option<usize>)
        ensures
            r == self.spec_confirm_delete(),
    {
        self.confirm_delete_index
    }

    /// Asks (or stops asking) the user to confirm restoring a backup.
    pub fn set_confirm_restore(&mut self, index: Option<usize>)
        ensures
            final(self).spec_confirm_restore() == index,
            final(self).spec_confirm_delete() == old(self).spec_confirm_delete(),
            final(self).spec_backups() == old(self).spec_backups(),
            final(self).spec_error() == old(self).spec_error(),
            final(self).spec_success() == old(self).spec_success(),
            final(self).spec_db_path() == old(self).spec_db_path(),
            final(self).spec_shown() == old(self).spec_shown(),
    {
        self.confirm_restore_index = index;
    }

    /// Asks (or stops asking) the user to confirm deleting a backup.
    pub fn set_confirm_delete(&mut self, index: Option<usize>)
        ensures
            final(self).spec_confirm_delete() == index,
            final(self).spec_confirm_restore() == old(self).spec_confirm_restore(),
            final(self).spec_backups() == old(self).spec_backups(),
            final(self).spec_error() == old(self).spec_error(),
            final(self).spec_success() == old(self).spec_success(),
            final(self).spec_db_path() == old(self).spec_db_path(),
            final(self).spec_shown() == old(self).spec_shown(),
    {
        self.confirm_delete_index = index;
    }

    /// Takes in a fresh listing: the backups and no error on success, an
    /// error message (and the old list) on failure.
    pub fn refresh_backups(&mut self, listed: Result<Vec<BackupInfo>, String>)
        ensures
            listed is Ok ==> final(self).spec_backups() == listed->Ok_0@ && final(self).spec_error() is None,
            listed is Err ==> final(self).spec_backups() == old(self).spec_backups()
                && final(self).spec_error() == Some("Failed to list backups: "@ + listed->Err_0@),
            final(self).spec_success() == old(self).spec_success(),
            final(self).spec_confirm_restore() == old(self).spec_confirm_restore(),
            final(self).spec_confirm_delete() == old(self).spec_confirm_delete(),
            final(self).spec_db_path() == old(self).spec_db_path(),
            final(self).spec_shown() == old(self).spec_shown(),
    {
        match listed {
            Ok(backups) => {
                self.backups = backups;
                self.error_message = None;
            },
            Err(e) => {
                self.error_message = Some(with_prefix("Failed to list backups: ", e.as_str()));
            },
        }
    }

    /// Opens the dialog with a fresh listing and no messages.
    pub fn open(&mut self, listed: Result<Vec<BackupInfo>, String>)
        ensures
            final(self).spec_shown(),
            listed is Ok ==> final(self).spec_backups() == listed->Ok_0@,
            listed is Err ==> final(self).spec_backups() == old(self).spec_backups(),
            final(self).spec_error() is None,
            final(self).spec_success() is None,
            final(self).spec_confirm_restore() == old(self).spec_confirm_restore(),
            final(self).spec_confirm_delete() == old(self).spec_confirm_delete(),
            final(self).spec_db_path() == old(self).spec_db_path(),
    {
        self.show_dialog = true;
        self.refresh_backups(listed);
        self.error_message = None;
        self.success_message = None;
    }

    /// Closes the dialog, dropping messages and pending confirmations.
    pub fn close(&mut self)
        ensures
            !final(self).spec_shown(),
            final(self).spec_error() is None,
            final(self).spec_success() is None,
            final(self).spec_confirm_restore() is None,
            final(self).spec_confirm_delete() is None,
            final(self).spec_backups() == old(self).spec_backups(),
            final(self).spec_db_path() == old(self).spec_db_path(),
    {
        self.show_dialog = false;
        self.error_message = None;
        self.success_message = None;
        self.confirm_restore_index = None;
        self.confirm_delete_index = None;
    }

    /// Takes in the outcome of creating a backup (the new file's name, or
    /// the error) and the listing made afterwards. A failure is passed on
    /// and changes nothing.
    pub fn create_backup(
        &mut self,
        created: Result<String, String>,
        listed: Result<Vec<BackupInfo>, String>,
    ) -> (r: Result<(), String>)
        ensures
            created is Err ==> r == Err::<(), String>(created->Err_0) && *final(self) == *old(self),
            created is Ok ==> {
                &&& r is Ok
                &&& final(self).spec_success() == Some(
                    "Backup created successfully: "@ + created->Ok_0@,
                )
                &&& listed is Ok ==> final(self).spec_backups() == listed->Ok_0@
                    && final(self).spec_error() is None
                &&& listed is Err ==> final(self).spec_backups() == old(self).spec_backups()
                    && final(self).spec_error() == Some("Failed to list backups: "@ + listed->Err_0@)
            },
            final(self).spec_confirm_restore() == old(self).spec_confirm_restore(),
            final(self).spec_confirm_delete() == old(self).spec_confirm_delete(),
            final(self).spec_db_path() == old(self).spec_db_path(),
            final(self).spec_shown() == old(self).spec_shown(),
    {
        match created {
            Err(e) => Err(e),
            Ok(name) => {
                self.success_message = Some(with_prefix("Backup created successfully: ", name.as_str()));
                self.refresh_backups(listed);
                Ok(())
            },
        }
    }

    /// What restoring backup `index` asks of the file system: the backup's
    /// path and the database path to copy it over. An index past the list
    /// is refused before anything is asked.
    pub fn restore_request(&self, index: usize) -> (r: Result<(String, String), String>)
        ensures
            index >= self.spec_backups().len() ==> r is Err && r->Err_0@ == "Invalid backup index"@,
            index < self.spec_backups().len() ==> r is Ok && r->Ok_0.0@ == self.spec_backups()[index as int].path@
                && r->Ok_0.1@ == self.spec_db_path(),
    {
        if index >= self.backups.len() {
            return Err(String::from_str("Invalid backup index"));
        }
        Ok((self.backups[index].path.clone(), self.db_path.clone()))
    }

    /// What deleting backup `index` asks of the file system: the path of
    /// that backup, and no other. An index past the list is refused before
    /// anything is asked.
    pub fn delete_request(&self, index: usize) -> (r: Result<String, String>)
        ensures
            index >= self.spec_backups().len() ==> r is Err && r->Err_0@ == "Invalid backup index"@,
            index < self.spec_backups().len() ==> r is Ok && r->Ok_0@ == self.spec_backups()[index as int].path@,
    {
        if index >= self.backups.len() {
            return Err(String::from_str("Invalid backup index"));
        }
        Ok(self.backups[index].path.clone())
    }

    /// Takes in the outcome of restoring backup `index` over the database,
    /// the restore that `restore_request(index)` asked for.
    /// An index past the list is refused (nothing may have been restored).
    pub fn restore_backup(&mut self, index: usize, restored: Result<(), String>) -> (r: Result<(), String>)
        ensures
            index >= old(self).spec_backups().len() ==> r is Err && r->Err_0@ == "Invalid backup index"@
                && *final(self) == *old(self),
            index < old(self).spec_backups().len() && restored is Err ==> r == restored && *final(self)
                == *old(self),
            index < old(self).spec_backups().len() && restored is Ok ==> {
                &&& r is Ok
                &&& final(self).spec_success() == Some(
                    "Database restored from backup: "@ + old(self).spec_backups()[index as int].filename@,
                )
                &&& final(self).spec_confirm_restore() is None
                &&& final(self).spec_backups() == old(self).spec_backups()
                &&& final(self).spec_error() == old(self).spec_error()
                &&& final(self).spec_confirm_delete() == old(self).spec_confirm_delete()
            },
            final(self).spec_db_path() == old(self).spec_db_path(),
            final(self).spec_shown() == old(self).spec_shown(),
    {
        if index >= self.backups.len() {
            return Err(String::from_str("Invalid backup index"));
        }
        match restored {
            Err(e) => Err(e),
            Ok(()) => {
                let msg = with_prefix("Database restored from backup: ", self.backups[index].filename.as_str());
                self.success_message = Some(msg);
                self.confirm_restore_index = None;
                Ok(())
            },
        }
    }

    /// Takes in the outcome of deleting backup `index` (the deletion that
    /// `delete_request(index)` asked for) and the listing made afterwards.
    /// An index past the list is refused.
    pub fn delete_backup(
        &mut self,
        index: usize,
        deleted: Result<(), String>,
        listed: Result<Vec<BackupInfo>, String>,
    ) -> (r: Result<(), String>)
        ensures
            index >= old(self).spec_backups().len() ==> r is Err && r->Err_0@ == "Invalid backup index"@
                && *final(self) == *old(self),
            index < old(self).spec_backups().len() && deleted is Err ==> r == deleted && *final(self)
                == *old(self),
            index < old(self).spec_backups().len() && deleted is Ok ==> {
                &&& r is Ok
                &&& final(self).spec_success() == Some(
                    "Backup deleted: "@ + old(self).spec_backups()[index as int].filename@,
                )
                &&& final(self).spec_confirm_delete() is None
                &&& final(self).spec_confirm_restore() == old(self).spec_confirm_restore()
                &&& listed is Ok ==> final(self).spec_backups() == listed->Ok_0@
                    && final(self).spec_error() is None
                &&& listed is Err ==> final(self).spec_backups() == old(self).spec_backups()
                    && final(self).spec_error() == Some("Failed to list backups: "@ + listed->Err_0@)
            },
            final(self).spec_db_path() == old(self).spec_db_path(),
            final(self).spec_shown() == old(self).spec_shown(),
    {
        if index >= self.backups.len() {
            return Err(String::from_str("Invalid backup index"));
        }
        match deleted {
            Err(e) => Err(e),
            Ok(()) => {
                let msg = with_prefix("Backup deleted: ", self.backups[index].filename.as_str());
                self.success_message = Some(msg);
                self.confirm_delete_index = None;
                self.refresh_backups(listed);
                Ok(())
            },
        }
    }
}

} // verus!
