//! The per-request context: binding the admitted account record for the
//! downstream handler, and the handler-side accessor that retrieves it.

use vstd::prelude::*;
use crate::account::Account;
use crate::errors::AuthError;

verus! {

/// A request's per-request context store. It is owned by that one request's
/// processing alone, starts empty, and receives the Bound Identity at most
/// once: exactly when the request passed the Role Gate.
pub struct RequestContext {
    identity: Option<Account>,
}

impl RequestContext {
    /// The identity bound into this context, if the middleware admitted the
    /// request.
    pub closed spec fn bound(self) -> Option<Account> {
        self.identity
    }

    /// A fresh context, with nothing bound.
    pub fn new() -> (c: Self)
        ensures
            c.bound() is None,
    {
        RequestContext { identity: None }
    }

    /// The Request Context Binder: stores the admitted account record so
    /// downstream processing can retrieve it without re-authenticating.
    /// The binding is write-once per request.
    pub fn bind(&mut self, account: Account)
        requires
            old(self).bound() is None,
        ensures
            final(self).bound() == Some(account),
    {
        self.identity = Some(account);
    }
}

/// The Authenticated-Identity Accessor: a handler's view of the identity that
/// was bound for this request. It holds its own copy of the record, so a
/// handler can never mutate the middleware's state through it.
pub struct Authenticated {
    account: Account,
}

impl Authenticated {
    /// The account record this accessor carries.
    pub closed spec fn spec_account(self) -> Account {
        self.account
    }

    /// Retrieves the Bound Identity from a request's context. An empty
    /// context means the route was wired to use the accessor without being
    /// wrapped by the gating pipeline: a configuration defect, reported as a
    /// server error, never as an ordinary authentication failure.
    pub fn from_context(ctx: &RequestContext) -> (r: Result<Authenticated, AuthError>)
        ensures
            match ctx.bound() {
                Some(a) => r matches Ok(auth) && auth.spec_account() == a,
                None => r matches Err(e) && e == AuthError::MissingBindingDefect,
            },
    {
        match &ctx.identity {
            Some(a) => Ok(Authenticated { account: *a }),
            None => Err(AuthError::MissingBindingDefect),
        }
    }

    /// Read-only access to the bound account record.
    pub fn account(&self) -> (a: &Account)
        ensures
            *a == self.spec_account(),
    {
        &self.account
    }
}

} // verus!
