//! The values a registration works on: what the caller submits, what is
//! stored and what is announced.

use vstd::prelude::*;

verus! {

/// What a caller submits to open an account. `user_id` is the key under which
/// the document store files the account.
#[derive(Debug, PartialEq, Eq)]
pub struct RegistrationRequest {
    pub user_id: String,
    pub email: String,
    pub password: String,
    pub username: String,
    pub first_name: String,
    pub last_name: String,
}

/// The mathematical value of a [`RegistrationRequest`].
pub struct RegistrationRequestView {
    pub user_id: Seq<char>,
    pub email: Seq<char>,
    pub password: Seq<char>,
    pub username: Seq<char>,
    pub first_name: Seq<char>,
    pub last_name: Seq<char>,
}

impl View for RegistrationRequest {
    type V = RegistrationRequestView;

    open spec fn view(&self) -> RegistrationRequestView {
        RegistrationRequestView {
            user_id: self.user_id@,
            email: self.email@,
            password: self.password@,
            username: self.username@,
            first_name: self.first_name@,
            last_name: self.last_name@,
        }
    }
}

/// The credentials kept in the document store, filed under the user id.
#[derive(Debug, PartialEq, Eq)]
pub struct AuthRecord {
    pub email: String,
    pub password: String,
}

/// The mathematical value of an [`AuthRecord`].
pub struct AuthRecordView {
    pub email: Seq<char>,
    pub password: Seq<char>,
}

impl View for AuthRecord {
    type V = AuthRecordView;

    open spec fn view(&self) -> AuthRecordView {
        AuthRecordView { email: self.email@, password: self.password@ }
    }
}

/// The fact that an account was registered, as subscribers learn it. It
/// carries the profile of the request and never the password.
#[derive(Debug, PartialEq, Eq)]
pub struct RegisteredEvent {
    pub user_id: String,
    pub email: String,
    pub username: String,
    pub first_name: String,
    pub last_name: String,
}

/// The mathematical value of a [`RegisteredEvent`].
pub struct RegisteredEventView {
    pub user_id: Seq<char>,
    pub email: Seq<char>,
    pub username: Seq<char>,
    pub first_name: Seq<char>,
    pub last_name: Seq<char>,
}

impl View for RegisteredEvent {
    type V = RegisteredEventView;

    open spec fn view(&self) -> RegisteredEventView {
        RegisteredEventView {
            user_id: self.user_id@,
            email: self.email@,
            username: self.username@,
            first_name: self.first_name@,
            last_name: self.last_name@,
        }
    }
}

impl RegistrationRequestView {
    /// The record that a registration for this request stores.
    pub open spec fn auth_record(self) -> AuthRecordView {
        AuthRecordView { email: self.email, password: self.password }
    }

    /// The event that a registration for this request announces.
    pub open spec fn registered_event(self) -> RegisteredEventView {
        RegisteredEventView {
            user_id: self.user_id,
            email: self.email,
            username: self.username,
            first_name: self.first_name,
            last_name: self.last_name,
        }
    }
}

impl Clone for RegistrationRequest {
    fn clone(&self) -> (copy: Self)
        ensures
            copy == *self,
    {
        RegistrationRequest {
            user_id: self.user_id.clone(),
            email: self.email.clone(),
            password: self.password.clone(),
            username: self.username.clone(),
            first_name: self.first_name.clone(),
            last_name: self.last_name.clone(),
        }
    }
}

impl Clone for AuthRecord {
    fn clone(&self) -> (copy: Self)
        ensures
            copy == *self,
    {
        AuthRecord { email: self.email.clone(), password: self.password.clone() }
    }
}

impl Clone for RegisteredEvent {
    fn clone(&self) -> (copy: Self)
        ensures
            copy == *self,
    {
        RegisteredEvent {
            user_id: self.user_id.clone(),
            email: self.email.clone(),
            username: self.username.clone(),
            first_name: self.first_name.clone(),
            last_name: self.last_name.clone(),
        }
    }
}

impl RegistrationRequest {
    /// Projects the request onto the credentials that are stored.
    pub fn auth_record(&self) -> (record: AuthRecord)
        ensures
            record@ == self@.auth_record(),
    {
        AuthRecord { email: self.email.clone(), password: self.password.clone() }
    }

    /// Projects the request onto the profile that is announced.
    pub fn registered_event(&self) -> (event: RegisteredEvent)
        ensures
            event@ == self@.registered_event(),
    {
        RegisteredEvent {
            user_id: self.user_id.clone(),
            email: self.email.clone(),
            username: self.username.clone(),
            first_name: self.first_name.clone(),
            last_name: self.last_name.clone(),
        }
    }
}

} // verus!
