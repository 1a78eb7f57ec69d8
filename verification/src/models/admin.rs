//! Admin accounts and what is shown of them.

use vstd::prelude::*;

verus! {

/// An admin account as the persistence layer holds it.
#[derive(Debug, Clone, PartialEq, Eq)]
pub struct Admin {
    pub id: u128,
    pub email: String,
    /// Never leaves the backend: no response carries it.
    pub hashed_password: String,
    pub role: String,
}

/// The credentials sent to log in or to register.
#[derive(Debug, Clone, PartialEq, Eq)]
pub struct AdminLogin {
    pub email: String,
    pub password: String,
}

/// What a client is shown of an admin account.
#[derive(Debug, Clone, PartialEq, Eq)]
pub struct AdminResponse {
    pub id: u128,
    pub email: String,
    pub role: String,
}

/// The answer to a successful login.
#[derive(Debug, Clone, PartialEq, Eq)]
pub struct LoginResponse {
    pub token: String,
    pub admin: AdminResponse,
}

pub struct AdminView {
    pub id: u128,
    pub email: Seq<char>,
    pub hashed_password: Seq<char>,
    pub role: Seq<char>,
}

pub struct AdminLoginView {
    pub email: Seq<char>,
    pub password: Seq<char>,
}

pub struct AdminResponseView {
    pub id: u128,
    pub email: Seq<char>,
    pub role: Seq<char>,
}

pub struct LoginResponseView {
    pub token: Seq<char>,
    pub admin: AdminResponseView,
}

impl View for Admin {
    type V = AdminView;

    open spec fn view(&self) -> AdminView {
        AdminView {
            id: self.id,
            email: self.email@,
            hashed_password: self.hashed_password@,
            role: self.role@,
        }
    }
}

impl View for AdminLogin {
    type V = AdminLoginView;

    open spec fn view(&self) -> AdminLoginView {
        AdminLoginView { email: self.email@, password: self.password@ }
    }
}

impl View for AdminResponse {
    type V = AdminResponseView;

    open spec fn view(&self) -> AdminResponseView {
        AdminResponseView { id: self.id, email: self.email@, role: self.role@ }
    }
}

impl View for LoginResponse {
    type V = LoginResponseView;

    open spec fn view(&self) -> LoginResponseView {
        LoginResponseView { token: self.token@, admin: self.admin@ }
    }
}

impl AdminView {
    /// What is shown of the account: everything but the password hash.
    pub open spec fn response(self) -> AdminResponseView {
        AdminResponseView { id: self.id, email: self.email, role: self.role }
    }
}

impl Admin {
    /// A copy of the account.
    pub fn duplicate(&self) -> (copy: Admin)
        ensures
            copy == *self,
    {
        Admin {
            id: self.id,
            email: self.email.clone(),
            hashed_password: self.hashed_password.clone(),
            role: self.role.clone(),
        }
    }

    /// What a client is shown of the account.
    pub fn to_response(&self) -> (response: AdminResponse)
        ensures
            response@ == self@.response(),
    {
        AdminResponse { id: self.id, email: self.email.clone(), role: self.role.clone() }
    }
}

} // verus!
