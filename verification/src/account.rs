//! The record a completed reset returns, and generated sign-up identities.

use vstd::prelude::*;
use crate::chars::lower_seq;
use crate::names::NameGenerator;

verus! {

#[derive(Clone, Copy, PartialEq, Eq, Structural, Debug)]
pub enum LoginStatus {
    Pending,
    LoggedIn,
    Failed,
}

/// The result record of one reset: who ran it and which identifiers were
/// written. Token fields exist in the data model but stay empty here.
/// Timestamps are packed decimal `YYYYMMDDHHMMSS` values.
pub struct CursorAccount {
    pub email: String,
    pub access_token: String,
    pub refresh_token: String,
    pub machine_id: String,
    pub device_id: String,
    pub mac_machine_id: String,
    pub created_at_stamp: u64,
    pub last_used_at_stamp: u64,
    pub is_active: bool,
    pub login_status: LoginStatus,
}

impl CursorAccount {
    /// A fresh record: active, logged in, created and last used now.
    pub fn new(
        email: String,
        access_token: String,
        refresh_token: String,
        machine_id: String,
        device_id: String,
        mac_machine_id: String,
        now_stamp: u64,
    ) -> (r: CursorAccount)
        ensures
            r.email == email,
            r.access_token == access_token,
            r.refresh_token == refresh_token,
            r.machine_id == machine_id,
            r.device_id == device_id,
            r.mac_machine_id == mac_machine_id,
            r.created_at_stamp == now_stamp,
            r.last_used_at_stamp == now_stamp,
            r.is_active,
            r.login_status == LoginStatus::LoggedIn,
    {
        CursorAccount {
            email,
            access_token,
            refresh_token,
            machine_id,
            device_id,
            mac_machine_id,
            created_at_stamp: now_stamp,
            last_used_at_stamp: now_stamp,
            is_active: true,
            login_status: LoginStatus::LoggedIn,
        }
    }
}

/// A generated sign-up identity: a random name pair, the address built from
/// it, and a password derived from the first name.
pub struct CursorEmail {
    pub first_name: String,
    pub last_name: String,
    pub email: String,
    pub password: String,
}

impl CursorEmail {
    /// Generates a fresh identity under the given mail domain. The address
    /// is `<first>.<last>@<domain>` in lower case, and the password is the
    /// first name followed by six random digits.
    pub fn new(domain: &str) -> (r: CursorEmail)
        ensures
            r.email@ == lower_seq(r.first_name@) + "."@ + lower_seq(r.last_name@) + "@"@
                + domain@,
            r.password@.len() == r.first_name@.len() + 6,
            r.password@.subrange(0, r.first_name@.len() as int) == r.first_name@,
            forall|i: int|
                r.first_name@.len() <= i < r.password@.len() ==> crate::chars::is_digit_char(
                    #[trigger] r.password@[i],
                ),
            crate::names::generated_name_wf(r.first_name@),
            crate::names::generated_name_wf(r.last_name@),
    {
        let mut generator = NameGenerator::new();
        let (first_name, last_name) = generator.generate_name();
        let mut email = crate::chars::ascii_lowercase(first_name.as_str());
        email.append(".");
        let last_lower = crate::chars::ascii_lowercase(last_name.as_str());
        email.append(last_lower.as_str());
        email.append("@");
        email.append(domain);
        let password = generator.generate_password(first_name.as_str());
        CursorEmail { first_name, last_name, email, password }
    }
}

} // verus!
