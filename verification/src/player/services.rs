use vstd::prelude::*;
use vstd::string::*;

verus! {

/// The user service. It keeps no state yet: it lists two placeholder users
/// and finds no user by id.
pub struct UserServiceHandler {}

impl UserServiceHandler {
    pub fn new() -> (h: UserServiceHandler) {
        UserServiceHandler {}
    }

    /// The users: `user1` and `user2`.
    pub fn list_users(&self) -> (v: Vec<String>)
        ensures
            v@.len() == 2,
            v@[0]@ == "user1"@,
            v@[1]@ == "user2"@,
    {
        let mut v = Vec::new();
        v.push(String::from_str("user1"));
        v.push(String::from_str("user2"));
        v
    }

    /// The user with an id: none is known.
    pub fn get_user(&self, _id: &str) -> (u: Option<String>)
        ensures
            u is None,
    {
        None
    }
}

/// Turning a result into an option, discarding the error.
pub trait ResultExt<T, E> {
    fn log_err(self) -> Option<T>;
}

impl<T, E> ResultExt<T, E> for Result<T, E> {
    /// The success value, or `None` for an error.
    fn log_err(self) -> (r: Option<T>)
        ensures
            match self {
                Ok(v) => r == Some(v),
                Err(_) => r is None,
            },
    {
        match self {
            Ok(v) => Some(v),
            Err(_) => None,
        }
    }
}

} // verus!
