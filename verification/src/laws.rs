//! What holds of every translation.
//!
//! Each law is stated over [`translated`], the sequence that
//! [`translate`] is proved to return, and spells the helper's options out as
//! they appear on its command line.

use vstd::prelude::*;
use crate::command::{Args, ArgsView};
use crate::translator::{translate, translated};

verus! {

/// Every argument vector begins with the same six arguments: `--client` and
/// the client, `--tenant` and the tenant, `--resource` and a single space.
pub proof fn lemma_begins_with_identity(args: ArgsView)
    ensures
        translated(args).len() >= 6,
        translated(args).take(6) == seq![
            "--client"@,
            args.target().client,
            "--tenant"@,
            args.target().tenant,
            "--resource"@,
            " "@,
        ],
{
}

/// Right after the first six arguments comes one pair per scope, `--scope`
/// and the scope, in the order of the scopes.
pub proof fn lemma_scopes_follow_in_order(args: ArgsView)
    ensures
        translated(args).len() >= 6 + 2 * args.target().scopes.len(),
        forall|k: int|
            0 <= k < args.target().scopes.len() ==> {
                &&& translated(args)[6 + 2 * k] == "--scope"@
                &&& translated(args)[6 + 2 * k + 1] == #[trigger] args.target().scopes[k]
            },
{
}

/// A request to clear a token ends with `--clear`.
pub proof fn lemma_clear_ends_with_flag(args: ArgsView)
    requires
        args is Clear,
    ensures
        translated(args).last() == "--clear"@,
{
}

/// A request to acquire a token holds `--clear` nowhere, and so does not end
/// with it, as long as the word is not itself the client, the tenant or a
/// scope of the request.
pub proof fn lemma_auth_has_no_clear_flag(args: ArgsView)
    requires
        args is Auth,
        !args.target().mentions("--clear"@),
    ensures
        !translated(args).contains("--clear"@),
        translated(args).last() != "--clear"@,
{
    reveal_strlit("--client");
    reveal_strlit("--tenant");
    reveal_strlit("--resource");
    reveal_strlit(" ");
    reveal_strlit("--scope");
    reveal_strlit("--clear");
    let out = translated(args);
    let scopes = args.target().scopes;
    assert("--client"@.len() == 8 && "--tenant"@.len() == 8 && "--clear"@.len() == 7);
    assert("--resource"@.len() == 10 && " "@.len() == 1);
    assert("--scope"@[2] == 's' && "--clear"@[2] == 'c');
    assert forall|i: int| 0 <= i < out.len() implies out[i] != "--clear"@ by {
        if i >= 6 && (i - 6) % 2 == 1 {
            assert(scopes.contains(scopes[(i - 6) / 2]));
        }
    }
}

/// An argument vector has six arguments, two more for each scope, and one
/// more where a token is to be cleared.
pub proof fn lemma_length(args: ArgsView)
    ensures
        args is Auth ==> translated(args).len() == 6 + 2 * args.target().scopes.len(),
        args is Clear ==> translated(args).len() == 7 + 2 * args.target().scopes.len(),
{
}

/// Translating the same command twice gives the same argument vector:
/// whatever two calls of `translate` return for commands that are equal as
/// mathematics, the results are equal as mathematics.
pub proof fn lemma_translate_twice(
    first: Args,
    second: Args,
    first_argv: Vec<String>,
    second_argv: Vec<String>,
)
    requires
        first@ == second@,
        call_ensures(translate, (first,), first_argv),
        call_ensures(translate, (second,), second_argv),
    ensures
        first_argv.deep_view() == second_argv.deep_view(),
{
}

} // verus!
