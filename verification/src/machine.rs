//! The reset attempt, as the state machine it walks through:
//! privilege check, process termination, unconditional backup, identifier
//! generation, configuration rewrite, and rollback on failure.
//!
//! The machine decides; the surrounding program performs each outside step
//! (process calls, file reads and writes) and reports its outcome back.

use vstd::prelude::*;
use crate::chars::clone_string;
use crate::hexid::{generate_id, is_hex16};

verus! {

/// The three fresh identifiers one reset attempt writes.
pub struct IdentitySet {
    pub machine_id: String,
    pub device_id: String,
    pub mac_machine_id: String,
}

impl IdentitySet {
    /// All three identifiers are syntactically valid: 16 hex digits each.
    pub open spec fn wf(&self) -> bool {
        is_hex16(self.machine_id@) && is_hex16(self.device_id@) && is_hex16(self.mac_machine_id@)
    }
}

/// Draws the three identifiers, each independently sampled.
pub fn generate_identity_set() -> (r: IdentitySet)
    ensures
        r.wf(),
{
    IdentitySet { machine_id: generate_id(), device_id: generate_id(), mac_machine_id: generate_id() }
}

/// Where one reset attempt stands.
#[derive(Clone, Copy, PartialEq, Eq, Structural, Debug)]
pub enum ResetPhase {
    /// Nothing has happened yet.
    Idle,
    /// Elevated privileges were confirmed.
    Privileged,
    /// Termination of the running application was attempted (best effort).
    Terminated,
    /// Both configuration files were backed up.
    BackedUp,
    /// Fresh identifiers were generated.
    Generated,
    /// Both configuration files hold the new identifiers.
    Written,
    /// The rewrite failed and the backups were restored.
    RolledBack,
    /// The rewrite failed and restoring the backups failed too.
    Irrecoverable,
    /// The privilege check failed; nothing was touched.
    Denied,
}

/// Why a reset attempt ended without writing the new identifiers.
#[derive(Clone, Copy, PartialEq, Eq, Structural, Debug)]
pub enum ResetError {
    /// Elevated privileges are required and were absent; not retried.
    PermissionDenied,
    /// The rewrite failed; the configuration was restored to its
    /// pre-attempt state.
    RolledBack,
    /// The rewrite failed and so did the restore; manual intervention is
    /// required.
    Irrecoverable,
}

/// One reset attempt.
pub struct CursorMachine {
    pub phase: ResetPhase,
    pub ids: Option<IdentitySet>,
}

impl CursorMachine {
    /// Identifiers exist from the moment they are generated on, and are
    /// always well formed.
    pub open spec fn inv(&self) -> bool {
        match self.phase {
            ResetPhase::Generated | ResetPhase::Written => self.ids matches Some(ids) && ids.wf(),
            _ => true,
        }
    }

    pub fn new() -> (r: CursorMachine)
        ensures
            r.phase == ResetPhase::Idle,
            r.ids is None,
            r.inv(),
    {
        CursorMachine { phase: ResetPhase::Idle, ids: None }
    }

    /// Step one: the privilege check is a hard precondition; without it the
    /// attempt is refused and nothing is touched.
    pub fn on_privilege_check(&mut self, elevated: bool) -> (r: Result<(), ResetError>)
        requires
            old(self).phase == ResetPhase::Idle,
            old(self).inv(),
        ensures
            final(self).inv(),
            final(self).ids == old(self).ids,
            elevated ==> r is Ok && final(self).phase == ResetPhase::Privileged,
            !elevated ==> r == Err::<(), ResetError>(ResetError::PermissionDenied)
                && final(self).phase == ResetPhase::Denied,
    {
        if elevated {
            self.phase = ResetPhase::Privileged;
            Ok(())
        } else {
            self.phase = ResetPhase::Denied;
            Err(ResetError::PermissionDenied)
        }
    }

    /// Step two: termination of the running application is best effort; a
    /// failure is reported to the operator but never aborts the attempt.
    pub fn on_terminate_attempt(&mut self, terminated: bool) -> (warn: bool)
        requires
            old(self).phase == ResetPhase::Privileged,
            old(self).inv(),
        ensures
            final(self).inv(),
            final(self).ids == old(self).ids,
            final(self).phase == ResetPhase::Terminated,
            warn == !terminated,
    {
        self.phase = ResetPhase::Terminated;
        !terminated
    }

    /// Step three: both configuration files were copied into the backup
    /// store. The backup runs on every attempt, before any mutation.
    pub fn on_backup_done(&mut self)
        requires
            old(self).phase == ResetPhase::Terminated,
            old(self).inv(),
        ensures
            final(self).inv(),
            final(self).ids == old(self).ids,
            final(self).phase == ResetPhase::BackedUp,
    {
        self.phase = ResetPhase::BackedUp;
    }

    /// Step four: draws the three fresh identifiers.
    pub fn generate_ids(&mut self) -> (r: IdentitySet)
        requires
            old(self).phase == ResetPhase::BackedUp,
            old(self).inv(),
        ensures
            final(self).inv(),
            final(self).phase == ResetPhase::Generated,
            final(self).ids matches Some(ids) && ids.machine_id@ == r.machine_id@
                && ids.device_id@ == r.device_id@ && ids.mac_machine_id@ == r.mac_machine_id@,
            r.wf(),
    {
        let ids = generate_identity_set();
        let copy = IdentitySet {
            machine_id: clone_string(&ids.machine_id),
            device_id: clone_string(&ids.device_id),
            mac_machine_id: clone_string(&ids.mac_machine_id),
        };
        self.ids = Some(copy);
        self.phase = ResetPhase::Generated;
        ids
    }

    /// Step five: the caller rewrote both files (or failed to). On success
    /// the attempt is complete; on failure a restore must follow.
    pub fn on_write_result(&mut self, ok: bool)
        requires
            old(self).phase == ResetPhase::Generated,
            old(self).inv(),
        ensures
            final(self).inv(),
            final(self).ids == old(self).ids,
            ok ==> final(self).phase == ResetPhase::Written,
            !ok ==> final(self).phase == ResetPhase::Generated,
    {
        if ok {
            self.phase = ResetPhase::Written;
        }
    }

    /// Step six, on failure only: the caller restored the backups (or
    /// failed to). Either way the attempt ends in an error; a successful
    /// restore means the pre-attempt configuration stands again.
    pub fn on_restore_result(&mut self, ok: bool) -> (r: ResetError)
        requires
            old(self).phase == ResetPhase::Generated,
            old(self).inv(),
        ensures
            final(self).inv(),
            ok ==> final(self).phase == ResetPhase::RolledBack && r == ResetError::RolledBack,
            !ok ==> final(self).phase == ResetPhase::Irrecoverable && r
                == ResetError::Irrecoverable,
    {
        if ok {
            self.phase = ResetPhase::RolledBack;
            ResetError::RolledBack
        } else {
            self.phase = ResetPhase::Irrecoverable;
            ResetError::Irrecoverable
        }
    }

    /// On a completed attempt: the record handed back to the operator
    /// carries the user that ran the reset and exactly the three written
    /// identifiers, each a valid 16-digit hex string.
    pub fn finish(&self, username: String, now_stamp: u64) -> (r: crate::account::CursorAccount)
        requires
            self.phase == ResetPhase::Written,
            self.inv(),
            self.ids is Some,
        ensures
            r.email@ == username@,
            r.machine_id@ == self.ids.unwrap().machine_id@,
            r.device_id@ == self.ids.unwrap().device_id@,
            r.mac_machine_id@ == self.ids.unwrap().mac_machine_id@,
            is_hex16(r.machine_id@),
            is_hex16(r.device_id@),
            is_hex16(r.mac_machine_id@),
            r.access_token@ =~= Seq::<char>::empty(),
            r.refresh_token@ =~= Seq::<char>::empty(),
            r.created_at_stamp == now_stamp,
            r.last_used_at_stamp == now_stamp,
            r.is_active,
            r.login_status == crate::account::LoginStatus::LoggedIn,
    {
        let ids = self.ids.as_ref().unwrap();
        crate::account::CursorAccount::new(
            username,
            String::new(),
            String::new(),
            clone_string(&ids.machine_id),
            clone_string(&ids.device_id),
            clone_string(&ids.mac_machine_id),
            now_stamp,
        )
    }
}

} // verus!
