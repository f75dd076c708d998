//! Translation of a command into the helper's argument vector.
//!
//! The helper reads its arguments by position, so the vector is specified
//! element by element: six that name the identity, one pair per requested
//! scope in the order given, and a closing `--clear` where a token is to be
//! cleared. [`translated`] says this over sequences of characters, and
//! [`translate`] computes it.

use vstd::prelude::*;
use vstd::std_specs::convert::FromSpecImpl;
use crate::command::{Args, ArgsView, Target, TargetView};

verus! {

/// The option that introduces the client ID.
pub const CLIENT_FLAG: &'static str = "--client";

/// The option that introduces the tenant ID.
pub const TENANT_FLAG: &'static str = "--tenant";

/// The option that introduces the resource.
pub const RESOURCE_FLAG: &'static str = "--resource";

/// The value always passed for the resource: one space, which the helper
/// reads as "no resource in particular".
pub const NO_RESOURCE: &'static str = " ";

/// The option that introduces one requested scope.
pub const SCOPE_FLAG: &'static str = "--scope";

/// The option that asks the helper to clear the token.
pub const CLEAR_FLAG: &'static str = "--clear";

/// The six arguments that every vector starts with.
pub open spec fn identity_args(target: TargetView) -> Seq<Seq<char>> {
    seq![
        CLIENT_FLAG@,
        target.client,
        TENANT_FLAG@,
        target.tenant,
        RESOURCE_FLAG@,
        NO_RESOURCE@,
    ]
}

/// The scope options of a request: for the `k`-th scope, `--scope` at
/// position `2 * k` and the scope itself right after it.
pub open spec fn scope_args(scopes: Seq<Seq<char>>) -> Seq<Seq<char>> {
    Seq::new(
        2 * scopes.len(),
        |i: int|
            if i % 2 == 0 {
                SCOPE_FLAG@
            } else {
                scopes[i / 2]
            },
    )
}

/// The arguments that name a target: its identity, then its scopes.
pub open spec fn target_args(target: TargetView) -> Seq<Seq<char>> {
    identity_args(target) + scope_args(target.scopes)
}

/// The argument vector of a command. Clearing differs from acquiring by one
/// trailing `--clear`.
pub open spec fn translated(args: ArgsView) -> Seq<Seq<char>> {
    match args {
        ArgsView::Auth(target) => target_args(target),
        ArgsView::Clear(target) => target_args(target).push(CLEAR_FLAG@),
    }
}

/// One more scope adds one more pair at the end.
proof fn lemma_scope_args_push(scopes: Seq<Seq<char>>, scope: Seq<char>)
    ensures
        scope_args(scopes.push(scope)) == scope_args(scopes).push(SCOPE_FLAG@).push(scope),
{
}

impl From<Target> for Vec<String> {
    /// Lists the arguments that name `target`, moving its strings into the
    /// result.
    fn from(target: Target) -> (args: Vec<String>)
        ensures
            args.deep_view() == target_args(target@),
    {
        let Target { client, tenant, scopes } = target;
        let mut args = vec![
            CLIENT_FLAG.to_owned(),
            client,
            TENANT_FLAG.to_owned(),
            tenant,
            RESOURCE_FLAG.to_owned(),
            NO_RESOURCE.to_owned(),
        ];

        let ghost given = scopes@;
        let ghost wanted = scopes.deep_view();
        for scope in it: scopes
            invariant
                it.seq() == given,
                wanted == given.map_values(|s: String| s@),
                wanted == target@.scopes,
                args.deep_view() == identity_args(target@) + scope_args(
                    wanted.take(it.index()),
                ),
        {
            let ghost before = args.deep_view();
            let ghost label = scope@;
            args.push(SCOPE_FLAG.to_owned());
            args.push(scope);
            proof {
                assert(args.deep_view() == before.push(SCOPE_FLAG@).push(label));
                assert(wanted.take(it.index() + 1) == wanted.take(it.index()).push(label));
                lemma_scope_args_push(wanted.take(it.index()), label);
            }
        }
        args
    }
}

/// `From::from` is specified by its own postcondition, over the views of the
/// strings. No `Vec<String>` can be written down in a specification, so the
/// conversion is not tied to `from_spec`.
impl FromSpecImpl<Target> for Vec<String> {
    open spec fn obeys_from_spec() -> bool {
        false
    }

    open spec fn from_spec(target: Target) -> Vec<String> {
        choose|args: Vec<String>| args.deep_view() == target_args(target@)
    }
}

/// Translates a command into the argument vector for the helper.
///
/// Every command has a translation: nothing is rejected, and a target
/// without scopes yields no `--scope` pair.
pub fn translate(args: Args) -> (argv: Vec<String>)
    ensures
        argv.deep_view() == translated(args@),
{
    match args {
        Args::Auth(target) => Vec::from(target),
        Args::Clear(target) => {
            let mut args = Vec::from(target);
            args.push(CLEAR_FLAG.to_owned());
            args
        },
    }
}

} // verus!
