//! The guard in front of the routes that need a logged-in user.

use vstd::prelude::*;

verus! {

/// Makes the guard for a service.
pub struct AuthMiddlewareFactory;

/// The guard in front of one service.
pub struct AuthMiddleware<S> {
    pub service: S,
}

/// What the guard does with a request.
#[derive(Debug, Clone, Copy, PartialEq, Eq, Structural)]
pub enum Admission {
    /// Hand the request to the service behind the guard.
    Forward,
    /// Answer with status 401 and do not call the service.
    Unauthorized,
}

impl AuthMiddlewareFactory {
    /// Puts the guard in front of `service`.
    pub fn new_transform<S>(&self, service: S) -> (guard: AuthMiddleware<S>)
        ensures
            guard.service == service,
    {
        AuthMiddleware { service }
    }
}

impl<S> AuthMiddleware<S> {
    /// Decides on a request by what its session holds under `user_id`: a
    /// request passes exactly when the session names a user.
    pub fn call(&self, session_user_id: &Option<String>) -> (admission: Admission)
        ensures
            admission == if session_user_id is Some {
                Admission::Forward
            } else {
                Admission::Unauthorized
            },
    {
        match session_user_id {
            Some(_) => Admission::Forward,
            None => Admission::Unauthorized,
        }
    }
}

} // verus!
