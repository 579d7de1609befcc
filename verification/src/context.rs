//! The application's shared handles: the database, the countdown and
//! notification services, and the legacy countdown file path.

use vstd::prelude::*;

verus! {

/// Shared access to the services that several parts of the application
/// need; `D` is the database, `C` the countdown service and `N` the
/// notification service.
pub struct AppContext<'a, D, C, N> {
    database: &'a D,
    countdown_storage_path: String,
    countdown_service: C,
    notification_service: N,
}

impl<'a, D, C, N> AppContext<'a, D, C, N> {
    pub closed spec fn spec_database(&self) -> &'a D {
        self.database
    }

    pub closed spec fn spec_countdown_service(&self) -> C {
        self.countdown_service
    }

    pub closed spec fn spec_notification_service(&self) -> N {
        self.notification_service
    }

    pub closed spec fn spec_storage_path(&self) -> Seq<char> {
        self.countdown_storage_path@
    }

    pub fn new(
        database: &'a D,
        countdown_service: C,
        countdown_storage_path: String,
        notification_service: N,
    ) -> (r: Self)
        ensures
            r.spec_database() == database,
            r.spec_countdown_service() == countdown_service,
            r.spec_storage_path() == countdown_storage_path@,
            r.spec_notification_service() == notification_service,
    {
        AppContext { database, countdown_storage_path, countdown_service, notification_service }
    }

    pub fn database(&self) -> (r: &'a D)
        ensures
            r == self.spec_database(),
    {
        self.database
    }

    pub fn countdown_service(&self) -> (r: &C)
        ensures
            *r == self.spec_countdown_service(),
    {
        &self.countdown_service
    }

    pub fn countdown_service_mut(&mut self) -> (r: &mut C)
        ensures
            *r == old(self).spec_countdown_service(),
            final(self).spec_countdown_service() == *final(r),
            final(self).spec_database() == old(self).spec_database(),
            final(self).spec_notification_service() == old(self).spec_notification_service(),
            final(self).spec_storage_path() == old(self).spec_storage_path(),
    {
        &mut self.countdown_service
    }

    /// Path of the legacy countdown file, kept for migration.
    pub fn countdown_storage_path(&self) -> (r: &str)
        ensures
            r@ == self.spec_storage_path(),
    {
        self.countdown_storage_path.as_str()
    }

    pub fn notification_service_mut(&mut self) -> (r: &mut N)
        ensures
            *r == old(self).spec_notification_service(),
            final(self).spec_notification_service() == *final(r),
            final(self).spec_database() == old(self).spec_database(),
            final(self).spec_countdown_service() == old(self).spec_countdown_service(),
            final(self).spec_storage_path() == old(self).spec_storage_path(),
    {
        &mut self.notification_service
    }
}

} // verus!
