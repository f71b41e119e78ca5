//! The account record persisted in the document store and carried through
//! signup and login.

use vstd::prelude::*;

verus! {

/// A stored identity record. The password is held and compared in plain
/// text, exactly as the service stores it — a known weakness of this
/// design, kept visible here rather than silently repaired.
///
/// An account is either unpersisted (`id` absent, as built for insertion)
/// or persisted (`id` present, assigned once by the store and immutable
/// afterwards).
#[derive(Debug, Clone)]
pub struct User {
    /// Store-assigned document identifier; absent before persistence.
    pub id: Option<String>,
    pub username: String,
    pub email: String,
    pub password: String,
}

/// The mathematical view of a `User`: each text field as a sequence of
/// characters.
pub ghost struct UserView {
    pub id: Option<Seq<char>>,
    pub username: Seq<char>,
    pub email: Seq<char>,
    pub password: Seq<char>,
}

impl View for User {
    type V = UserView;

    open spec fn view(&self) -> UserView {
        UserView {
            id: match self.id {
                Some(s) => Some(s@),
                None => None,
            },
            username: self.username@,
            email: self.email@,
            password: self.password@,
        }
    }
}

impl UserView {
    /// The record carries a store-assigned identifier.
    pub open spec fn is_persisted(self) -> bool {
        self.id is Some
    }
}

impl User {
    /// Executable form of `UserView::is_persisted`.
    pub fn is_persisted(&self) -> (b: bool)
        ensures
            b == self@.is_persisted(),
    {
        self.id.is_some()
    }
}

} // verus!
