//! A credential payload paired with the instant at which it stops being valid.
use vstd::prelude::*;

use crate::time::Timestamp;

verus! {

/// A temporary credential and its expiry; `expiry == None` means that the
/// credential never expires.
#[derive(Debug)]
pub struct TemporaryToken<T> {
    pub token: T,
    pub expiry: Option<Timestamp>,
}

impl<T> TemporaryToken<T> {
    /// A token holding `token` that stops being valid at `expiry`.
    pub fn new(token: T, expiry: Option<Timestamp>) -> (r: TemporaryToken<T>)
        ensures
            r.token == token,
            r.expiry == expiry,
    {
        TemporaryToken { token, expiry }
    }
}

impl<T: Clone> Clone for TemporaryToken<T> {
    fn clone(&self) -> (r: Self)
        ensures
            cloned(self.token, r.token),
            r.expiry == self.expiry,
    {
        TemporaryToken { token: self.token.clone(), expiry: self.expiry }
    }
}

} // verus!
