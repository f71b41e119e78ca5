//! The repository layer: owner of the document-store collection name, the
//! login query shape, and the result policy for both operations.
//!
//! The store calls themselves are network I/O and are issued by the
//! surrounding application. Each repository operation is therefore split
//! into a verified half that prepares the request (the record to insert,
//! the filter to query with) and a verified half that interprets the
//! store's reply; the application only carries values between the two and
//! the store.

use vstd::prelude::*;

use crate::user::User;
use crate::user::UserView;

verus! {

/// A failure reported by the document store (network, quota,
/// serialization). The cause is never classified further by this design;
/// only the store's message is kept.
#[derive(Debug, Clone)]
pub struct StoreError {
    pub message: String,
}

/// The collection all account documents live in.
pub open spec fn spec_collection_name() -> Seq<char> {
    "users"@
}

/// The fixed placeholder token handed out on a successful login. It is not
/// session-specific, not signed and not expiring: a stub standing where
/// real authentication would go, kept as the design has it.
pub open spec fn spec_login_token() -> Seq<char> {
    "my_token"@
}

/// Whether a stored account matches a login attempt: exact equality of
/// both username and password (a conjunction, never a disjunction).
pub open spec fn credentials_match(u: UserView, username: Seq<char>, password: Seq<char>) -> bool {
    u.username == username && u.password == password
}

/// What the store is documented to return for the login query: exactly the
/// documents whose username and password both equal the attempt's, in
/// store order.
pub open spec fn matching_accounts(
    store: Seq<UserView>,
    username: Seq<char>,
    password: Seq<char>,
) -> Seq<UserView> {
    store.filter(|u: UserView| credentials_match(u, username, password))
}

/// The login result policy over the number of matching accounts: exactly
/// one match earns the fixed token; zero or several matches earn none.
pub open spec fn token_for_matches(n: nat) -> Option<Seq<char>> {
    if n == 1 {
        Some(spec_login_token())
    } else {
        None
    }
}

/// The equality filter a login issues to the store.
pub struct LoginQuery {
    pub username: String,
    pub password: String,
}

impl LoginQuery {
    /// Whether a stored account satisfies this filter.
    pub open spec fn spec_matches(&self, u: UserView) -> bool {
        credentials_match(u, self.username@, self.password@)
    }

    /// Evaluates the filter on one record, as the store does on each
    /// document of the collection.
    pub fn matches_user(&self, u: &User) -> (b: bool)
        ensures
            b == self.spec_matches(u@),
    {
        self.username == u.username && self.password == u.password
    }
}

/// The repository: translates signup and login into one store write or
/// query each. It holds no state of its own; the application binds it to
/// a store handle and performs the calls it prepares.
pub struct UserRepository {}

impl UserRepository {
    pub fn new() -> (repo: UserRepository) {
        UserRepository {  }
    }

    /// The name of the collection every signup writes to and every login
    /// queries.
    pub fn collection_name(&self) -> (name: &'static str)
        ensures
            name@ == spec_collection_name(),
    {
        "users"
    }

    /// Builds the unpersisted record that signup inserts: the given
    /// fields, no identifier (the store assigns one on insertion).
    pub fn signup_record(&self, username: String, email: String, password: String) -> (u: User)
        ensures
            u@.id is None,
            u@.username == username@,
            u@.email == email@,
            u@.password == password@,
    {
        User { id: None, username, email, password }
    }

    /// Interprets the store's reply to the insert: on success the store
    /// hands back the persisted record, and signup returns its newly
    /// assigned identifier; a store failure surfaces unchanged, first
    /// attempt and only attempt.
    pub fn signup_outcome(&self, reply: Result<User, StoreError>) -> (r: Result<String, StoreError>)
        requires
            reply matches Ok(u) ==> u@.is_persisted(),
        ensures
            (match reply {
                Ok(u) => r matches Ok(id) && Some(id@) == u@.id,
                Err(e) => r == Err::<String, StoreError>(e),
            }),
    {
        match reply {
            Ok(user) => match user.id {
                Some(id) => Ok(id),
                None => vstd::pervasive::unreached(),
            },
            Err(error) => Err(error),
        }
    }

    /// Builds the filter login queries with: both fields, exact equality.
    pub fn login_query(&self, username: String, password: String) -> (q: LoginQuery)
        ensures
            q.username@ == username@,
            q.password@ == password@,
    {
        LoginQuery { username, password }
    }

    /// Interprets the store's reply to the login query. Exactly one
    /// matching document earns the fixed token; zero or several earn
    /// none — ambiguity counts as authentication failure, never as a
    /// choice among the matches. A store failure surfaces unchanged,
    /// distinct from "no token".
    pub fn login_outcome(&self, reply: Result<Vec<User>, StoreError>) -> (r: Result<
        Option<String>,
        StoreError,
    >)
        ensures
            (match reply {
                Ok(users) => (match r {
                    Ok(token) => option_token_view(token) == token_for_matches(
                        users@.len() as nat,
                    ),
                    Err(_) => false,
                }),
                Err(e) => r == Err::<Option<String>, StoreError>(e),
            }),
    {
        match reply {
            Ok(users) => {
                if users.len() == 1 {
                    Ok(Some("my_token".to_owned()))
                } else {
                    Ok(None)
                }
            },
            Err(error) => Err(error),
        }
    }
}

/// The view of an optional token as an optional character sequence.
pub open spec fn option_token_view(token: Option<String>) -> Option<Seq<char>> {
    match token {
        Some(t) => Some(t@),
        None => None,
    }
}

/// Law: signing up and then immediately logging in with the same username
/// and password earns the non-empty fixed token, provided no already
/// stored account shares that exact pair. The store assigns the new record
/// an identifier, but matching looks only at username and password, so the
/// freshly inserted record is the single match.
pub proof fn lemma_signup_then_login(
    store: Seq<UserView>,
    account: UserView,
    username: Seq<char>,
    password: Seq<char>,
)
    requires
        matching_accounts(store, username, password).len() == 0,
        credentials_match(account, username, password),
    ensures
        token_for_matches(matching_accounts(store.push(account), username, password).len())
            == Some(spec_login_token()),
        spec_login_token().len() > 0,
{
    reveal(Seq::filter);
    reveal_strlit("my_token");
    let pred = |u: UserView| credentials_match(u, username, password);
    let grown = store.push(account);
    assert(grown.drop_last() =~= store);
    assert(grown.last() == account);
    assert(grown.filter(pred) == store.filter(pred).push(account));
}

/// Law: a login whose credentials match no stored account earns no token:
/// the outcome is the expected authentication failure, not a store error
/// (`login_outcome` maps every successful query reply to `Ok`).
pub proof fn lemma_login_no_match(store: Seq<UserView>, username: Seq<char>, password: Seq<char>)
    requires
        matching_accounts(store, username, password).len() == 0,
    ensures
        token_for_matches(matching_accounts(store, username, password).len()) is None,
{
}

/// Law: a login whose credentials match more than one stored account also
/// earns no token: ambiguity is treated as authentication failure, never
/// as an arbitrary selection among the matches.
pub proof fn lemma_login_ambiguous(store: Seq<UserView>, username: Seq<char>, password: Seq<char>)
    requires
        matching_accounts(store, username, password).len() > 1,
    ensures
        token_for_matches(matching_accounts(store, username, password).len()) is None,
{
}

} // verus!
