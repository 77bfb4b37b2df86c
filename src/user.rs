//! User records and the table that holds them.
//!
//! The table itself lives in an external store; the library only models it,
//! as a map from external id to record, so that the effect of the requests it
//! makes of the store can be stated.
use vstd::prelude::*;

verus! {

/// A user record, as mathematical values.
pub ghost struct UserView {
    pub id: Seq<char>,
    pub scope: Seq<char>,
    pub live_token: Seq<char>,
}

/// A user known to the service.
#[derive(Debug)]
pub struct User {
    /// External identity-provider login; unique.
    pub id: String,
    /// Tenant, channel or group the user works in.
    pub scope: String,
    /// The provider's access token from the user's latest login.
    pub live_token: String,
}

impl View for User {
    type V = UserView;

    open spec fn view(&self) -> UserView {
        UserView { id: self.id@, scope: self.scope@, live_token: self.live_token@ }
    }
}

impl User {
    /// A copy of this record.
    pub fn duplicate(&self) -> (r: User)
        ensures
            r@ == self@,
    {
        User { id: self.id.clone(), scope: self.scope.clone(), live_token: self.live_token.clone() }
    }
}

/// The user table: one record per external id.
pub type UserTable = Map<Seq<char>, UserView>;

/// The table after writing `user` in full under its id (an insert of a new
/// id, or a replace of the existing record).
pub open spec fn table_write(table: UserTable, user: UserView) -> UserTable {
    table.insert(user.id, user)
}

} // verus!
