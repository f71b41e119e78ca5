//! The service layer: adapts the repository's typed outcomes to the
//! remote-procedure response/status contract.
//!
//! The transport itself (request envelopes, the server bootstrap) is the
//! surrounding application's concern; it extracts the request fields,
//! drives the repository's store call, and hands the typed outcome to the
//! methods here.

use vstd::prelude::*;

use crate::user_repository::StoreError;

verus! {

/// The payload of a successful signup: the store-assigned identifier of
/// the new account.
#[derive(Debug, Clone)]
pub struct SignupResponse {
    pub user_id: String,
}

/// The payload of a successful login: the placeholder token.
#[derive(Debug, Clone)]
pub struct LoginResponse {
    pub token: String,
}

/// The status a failed call reports, with its message. Every store-level
/// failure collapses to `Internal`, its diagnostic detail discarded; a
/// login without a unique match reports `Unauthenticated`.
#[derive(Debug, Clone)]
pub enum Status {
    Internal(String),
    Unauthenticated(String),
}

/// The account service behind the two remote operations. It holds no
/// state of its own; the application binds each call to a fresh
/// repository over its shared store handle.
pub struct MyUserService {}

impl MyUserService {
    pub fn new() -> (service: MyUserService) {
        MyUserService {  }
    }

    /// Maps a signup outcome to the remote response: success carries the
    /// new identifier; any repository failure becomes one generic
    /// internal status, whatever its cause was.
    pub fn signup(&self, outcome: Result<String, StoreError>) -> (r: Result<
        SignupResponse,
        Status,
    >)
        ensures
            (match outcome {
                Ok(user_id) => r matches Ok(resp) && resp.user_id@ == user_id@,
                Err(_) => r matches Err(status) && status matches Status::Internal(m) && m@
                    == "Could not create account"@,
            }),
    {
        match outcome {
            Ok(user_id) => Ok(SignupResponse { user_id }),
            Err(_) => Err(Status::Internal("Could not create account".to_owned())),
        }
    }

    /// Maps a login outcome to the remote response: a token carries over;
    /// "no token" (no unique match) becomes an unauthenticated status;
    /// a repository failure becomes the generic internal status.
    pub fn login(&self, outcome: Result<Option<String>, StoreError>) -> (r: Result<
        LoginResponse,
        Status,
    >)
        ensures
            (match outcome {
                Ok(Some(token)) => r matches Ok(resp) && resp.token@ == token@,
                Ok(None) => r matches Err(status) && status matches Status::Unauthenticated(m)
                    && m@ == "Wrong login or passowrd"@,
                Err(_) => r matches Err(status) && status matches Status::Internal(m) && m@
                    == "Could not login"@,
            }),
    {
        match outcome {
            Ok(Some(token)) => Ok(LoginResponse { token }),
            Ok(None) => Err(Status::Unauthenticated("Wrong login or passowrd".to_owned())),
            Err(_) => Err(Status::Internal("Could not login".to_owned())),
        }
    }
}

} // verus!
