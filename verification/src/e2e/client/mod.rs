//! The end-to-end client: its account, sessions and shared state

pub mod client;
pub mod client_handle;
pub mod error;
pub mod payload_cache;
pub mod session;
pub mod state;
pub mod sync_iterator;
pub mod workers;
pub mod x3dh;

use vstd::prelude::*;

verus! {

/// An account on the relay server
#[derive(Debug, Clone)]
pub struct Account {
    pub username: String,
    /// Account id
    pub id: u128,
    /// Authentication token
    pub token: String,
}

/// The contents of an [`Account`]
pub struct AccountView {
    pub username: Seq<char>,
    pub id: u128,
    pub token: Seq<char>,
}

impl View for Account {
    type V = AccountView;

    open spec fn view(&self) -> AccountView {
        AccountView { username: self.username@, id: self.id, token: self.token@ }
    }
}

impl Account {
    /// A copy of this account
    pub fn duplicate(&self) -> (r: Self)
        ensures
            r@ == self@,
    {
        Account { username: self.username.clone(), id: self.id, token: self.token.clone() }
    }
}

} // verus!
