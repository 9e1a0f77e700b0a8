use vstd::prelude::*;

verus! {

/// A user record: an identifier and a display name.
#[derive(Debug)]
pub struct User {
    pub id: u32,
    pub name: String,
}

/// Looks up user records by identifier.
///
/// `user_spec` fixes, per implementation, which record belongs to each
/// identifier; `get_user` must hand back exactly that record.
pub trait UserService {
    /// The record that this service associates with the identifier.
    spec fn user_spec(&self, user_id: u32) -> User;

    /// Returns the record for the identifier.
    fn get_user(&self, user_id: u32) -> (r: User)
        ensures
            r == self.user_spec(user_id),
    ;
}

/// A service holding one record, handed back for every identifier:
/// the canned behaviour a test double would be given.
pub struct CannedUserService {
    pub user: User,
}

impl UserService for CannedUserService {
    open spec fn user_spec(&self, user_id: u32) -> User {
        self.user
    }

    fn get_user(&self, user_id: u32) -> (r: User) {
        User { id: self.user.id, name: self.user.name.clone() }
    }
}

/// A single-method query service: `foo_spec` fixes, per implementation,
/// the reply to each query.
pub trait MyTrait<T> {
    /// The reply that this implementation gives to the query.
    spec fn foo_spec(&self, x: u32) -> T;

    /// Answers the query.
    fn foo(&self, x: u32) -> (r: T)
        ensures
            r == self.foo_spec(x),
    ;
}

/// A reply service holding one value, returned for every query:
/// the canned behaviour a test double would be given.
pub struct CannedReply {
    pub value: u32,
}

impl MyTrait<u32> for CannedReply {
    open spec fn foo_spec(&self, x: u32) -> u32 {
        self.value
    }

    fn foo(&self, x: u32) -> (r: u32) {
        self.value
    }
}

/// Queries the service at five and hands its reply back unchanged.
pub fn call_with_four<M: MyTrait<u32>>(x: &M) -> (r: u32)
    ensures
        r == x.foo_spec(5),
{
    x.foo(5)
}

} // verus!
