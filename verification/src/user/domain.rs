//! The user record.

use vstd::prelude::*;

verus! {

/// A user. A user has a name and nothing else; the number under which a
/// store keeps it is not part of it.
#[derive(Debug)]
pub struct User {
    pub name: String,
}

impl View for User {
    type V = Seq<char>;

    /// A user is its name.
    open spec fn view(&self) -> Seq<char> {
        self.name@
    }
}

impl Clone for User {
    fn clone(&self) -> (copy: Self)
        ensures
            copy@ == self@,
    {
        User { name: self.name.clone() }
    }
}

/// The names of `users`, in their order.
pub open spec fn names(users: Seq<User>) -> Seq<Seq<char>> {
    Seq::new(users.len(), |i: int| users[i]@)
}

} // verus!
