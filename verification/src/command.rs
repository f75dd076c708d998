//! The command model: what the user asked for, as plain data.
//!
//! A command is one of two actions on a cached token, acquire it or clear
//! it, together with the identity the token belongs to and the scopes it
//! covers. Values are built once from the command line and read once by
//! [`translate`](crate::translator::translate); nothing here changes them.

use vstd::prelude::*;

verus! {

/// The identity a token is requested for, and the scopes it should cover.
#[derive(Debug)]
pub struct Target {
    /// Client ID.
    pub client: String,
    /// Tenant ID.
    pub tenant: String,
    /// Requested scopes, in the order in which they were given.
    pub scopes: Vec<String>,
}

/// A [`Target`] as mathematics: each string is the sequence of its characters.
pub struct TargetView {
    pub client: Seq<char>,
    pub tenant: Seq<char>,
    pub scopes: Seq<Seq<char>>,
}

impl TargetView {
    /// What a request must satisfy before it is handed to the helper: both
    /// identifiers are present, and at least one scope is asked for.
    pub open spec fn well_formed(self) -> bool {
        &&& self.client.len() > 0
        &&& self.tenant.len() > 0
        &&& self.scopes.len() > 0
    }

    /// Whether `word` is the client, the tenant or one of the scopes.
    pub open spec fn mentions(self, word: Seq<char>) -> bool {
        self.client == word || self.tenant == word || self.scopes.contains(word)
    }
}

impl View for Target {
    type V = TargetView;

    open spec fn view(&self) -> TargetView {
        TargetView {
            client: self.client@,
            tenant: self.tenant@,
            scopes: self.scopes.deep_view(),
        }
    }
}

impl Clone for Target {
    /// Copies the target, string by string.
    fn clone(&self) -> (copy: Target)
        ensures
            copy@ == self@,
    {
        let copy = Target {
            client: self.client.clone(),
            tenant: self.tenant.clone(),
            scopes: self.scopes.clone(),
        };
        assert(copy.scopes.deep_view() =~= self.scopes.deep_view());
        copy
    }
}

impl Target {
    /// Tells whether the target meets the model's invariant. The fields are
    /// public, so whoever builds a `Target` from outside input asks this
    /// before going on, and reports a usage error otherwise.
    pub fn is_well_formed(&self) -> (ok: bool)
        ensures
            ok == self@.well_formed(),
    {
        !self.client.as_str().is_empty() && !self.tenant.as_str().is_empty()
            && !self.scopes.is_empty()
    }
}

/// One request of the user.
#[derive(Debug)]
pub enum Args {
    /// Acquire a token.
    Auth(Target),
    /// Clear a token.
    Clear(Target),
}

/// An [`Args`] as mathematics.
pub enum ArgsView {
    Auth(TargetView),
    Clear(TargetView),
}

impl ArgsView {
    /// The target of the request, whichever action it asks for.
    pub open spec fn target(self) -> TargetView {
        match self {
            ArgsView::Auth(target) => target,
            ArgsView::Clear(target) => target,
        }
    }

    /// A command is well formed when its target is.
    pub open spec fn well_formed(self) -> bool {
        self.target().well_formed()
    }
}

impl View for Args {
    type V = ArgsView;

    open spec fn view(&self) -> ArgsView {
        match self {
            Args::Auth(target) => ArgsView::Auth(target@),
            Args::Clear(target) => ArgsView::Clear(target@),
        }
    }
}

impl Clone for Args {
    /// Copies the command: the same action on a copy of the target.
    fn clone(&self) -> (copy: Args)
        ensures
            copy@ == self@,
    {
        match self {
            Args::Auth(target) => Args::Auth(target.clone()),
            Args::Clear(target) => Args::Clear(target.clone()),
        }
    }
}

impl Args {
    /// Tells whether the command meets the model's invariant.
    pub fn is_well_formed(&self) -> (ok: bool)
        ensures
            ok == self@.well_formed(),
    {
        match self {
            Args::Auth(target) => target.is_well_formed(),
            Args::Clear(target) => target.is_well_formed(),
        }
    }
}

} // verus!
