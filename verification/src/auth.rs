//! The credentials that travel from a client to everything derived from it.

use vstd::prelude::*;

verus! {

/// A user name and, where there is one, a password.
#[derive(Debug)]
pub struct Authorization {
    pub username: String,
    pub password: Option<String>,
}

/// An [`Authorization`] with its texts as sequences of characters.
pub struct Credentials {
    pub username: Seq<char>,
    pub password: Option<Seq<char>>,
}

impl View for Authorization {
    type V = Credentials;

    open spec fn view(&self) -> Credentials {
        Credentials {
            username: self.username@,
            password: match self.password {
                Some(p) => Some(p@),
                None => None,
            },
        }
    }
}

impl Clone for Authorization {
    fn clone(&self) -> (copy: Authorization)
        ensures
            copy@ == self@,
    {
        Authorization {
            username: self.username.clone(),
            password: match &self.password {
                Some(p) => Some(p.clone()),
                None => None,
            },
        }
    }
}

/// The view of credentials that may be absent.
pub open spec fn credentials(auth: Option<Authorization>) -> Option<Credentials> {
    match auth {
        Some(a) => Some(a@),
        None => None,
    }
}

/// A copy of credentials that may be absent.
pub fn duplicate(auth: &Option<Authorization>) -> (copy: Option<Authorization>)
    ensures
        credentials(copy) == credentials(*auth),
{
    match auth {
        Some(a) => Some(a.clone()),
        None => None,
    }
}

} // verus!
