//! The representations of a user: as stored, and as created.
use vstd::prelude::*;

verus! {

/// A point in time without a time zone, as seconds and nanoseconds since the
/// Unix epoch.
#[derive(Debug, Clone, Copy, PartialEq, Eq, Structural)]
pub struct Timestamp {
    /// Whole seconds since 1970-01-01 00:00:00.
    pub seconds: i64,
    /// Nanoseconds past the second; above 999,999,999 only in a leap second.
    pub nanos: u32,
}

/// A row of the user table.
#[derive(Debug, Clone)]
pub struct User {
    /// The internal identifier, used to associate users with other records.
    pub id: i32,
    /// The public identifier, as a 128-bit number.
    pub uuid: u128,
    /// The email address, which identifies the user uniquely.
    pub email: String,
    /// The bcrypt hash of the user's password.
    pub encrypted_password: String,
    /// When the row was created.
    pub created_at: Timestamp,
    /// When the row was last updated.
    pub updated_at: Timestamp,
}

/// The values with which a new user row is inserted: the email address and a
/// hash of the password.
#[derive(Debug)]
pub struct NewUser<'a> {
    email: &'a String,
    encrypted_password: &'a String,
}

impl<'a> NewUser<'a> {
    /// The values for a new user row, from an email address and a password
    /// hash.
    pub fn new(email: &'a String, encrypted_password: &'a String) -> (r: NewUser<'a>)
        ensures
            r.email() == email,
            r.encrypted_password() == encrypted_password,
    {
        NewUser { email, encrypted_password }
    }

    /// The email address of the new user.
    pub closed spec fn email(&self) -> &'a String {
        self.email
    }

    /// The hash of the new user's password.
    pub closed spec fn encrypted_password(&self) -> &'a String {
        self.encrypted_password
    }

    /// The email address of the new user.
    pub fn get_email(&self) -> (r: &'a String)
        ensures
            r == self.email(),
    {
        self.email
    }

    /// The hash of the new user's password.
    pub fn get_encrypted_password(&self) -> (r: &'a String)
        ensures
            r == self.encrypted_password(),
    {
        self.encrypted_password
    }
}

} // verus!
