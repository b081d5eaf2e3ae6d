//! The facade the front end talks to.

use vstd::prelude::*;
use crate::store::{BackupStore, ConfigContents, spec_restore};

verus! {

pub struct CursorService {}

impl CursorService {
    pub fn new() -> (r: CursorService) {
        CursorService {  }
    }

    /// Restores the most recent backup of each kind over the live files; a
    /// kind with no backup leaves its live file untouched.
    pub fn restore_backup(&self, store: &BackupStore, live: &mut ConfigContents)
        ensures
            final(live)@ == spec_restore(store@, old(live)@),
    {
        store.restore(live)
    }
}

impl Default for CursorService {
    fn default() -> (r: CursorService)
        ensures
            r == (CursorService {  }),
    {
        CursorService::new()
    }
}

} // verus!
