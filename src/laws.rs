//! Laws of classification and navigation, stated over the spec functions that
//! the contracts of `cli` use.
use vstd::prelude::*;

use crate::cli::{
    action_step, first_match, is_branch_at, lemma_resolve_at, line_step, outcome_at, parent_of,
    resolve, Directive, Effect, MetaAction, StateMessage,
};

verus! {

/// Classifying `input` yields either `UnknownCommand` or the outcome at a
/// position whose command string is `input`.
proof fn lemma_resolve_cases(ds: Seq<Directive>, input: Seq<char>)
    ensures
        resolve(ds, input) == StateMessage::UnknownCommand || exists|i: int|
            #![trigger outcome_at(ds, i)]
            first_match(ds, input, i) && resolve(ds, input) == outcome_at(ds, i),
{
    if exists|i: int| first_match(ds, input, i) {
        let i = choose|i: int| first_match(ds, input, i);
        lemma_resolve_at(ds, input, i);
    }
}

/// Exact-match discrimination: when two command strings differ, classifying
/// the first never yields the outcome of a directive registered under the
/// second.
pub proof fn law_exact_match(ds: Seq<Directive>, c1: Seq<char>, c2: Seq<char>, j: int)
    requires
        ds.len() <= usize::MAX,
        0 <= j < ds.len(),
        ds[j].cmd() == c2,
        c1 != c2,
    ensures
        resolve(ds, c1) != outcome_at(ds, j),
{
    lemma_resolve_cases(ds, c1);
    if resolve(ds, c1) != StateMessage::UnknownCommand {
        let i = choose|i: int|
            #![trigger outcome_at(ds, i)]
            first_match(ds, c1, i) && resolve(ds, c1) == outcome_at(ds, i);
        assert(i != j);
    }
}

/// Shadowing: of two directives registered under the same command string,
/// the later one is never the outcome of classifying that string; the outcome
/// is that of the earlier one, or of one registered before it.
pub proof fn law_first_registered_wins(ds: Seq<Directive>, c: Seq<char>, i: int, j: int)
    requires
        ds.len() <= usize::MAX,
        0 <= i < j < ds.len(),
        ds[i].cmd() == c,
        ds[j].cmd() == c,
    ensures
        resolve(ds, c) != outcome_at(ds, j),
        exists|k: int| 0 <= k <= i && #[trigger] outcome_at(ds, k) == resolve(ds, c),
        (forall|k: int| 0 <= k < i ==> ds[k].cmd() != c) ==> resolve(ds, c) == outcome_at(ds, i),
{
    lemma_resolve_cases(ds, c);
    lemma_earliest(ds, c, i);
    let k = choose|k: int|
        #![trigger outcome_at(ds, k)]
        first_match(ds, c, k) && resolve(ds, c) == outcome_at(ds, k);
    assert(k <= i);
    if forall|m: int| 0 <= m < i ==> ds[m].cmd() != c {
        lemma_resolve_at(ds, c, i);
    }
}

/// A command string registered at `i` has an earliest position at or before `i`.
proof fn lemma_earliest(ds: Seq<Directive>, c: Seq<char>, i: int)
    requires
        0 <= i < ds.len(),
        ds[i].cmd() == c,
    ensures
        exists|k: int| 0 <= k <= i && first_match(ds, c, k),
    decreases i,
{
    if exists|m: int| 0 <= m < i && ds[m].cmd() == c {
        let m = choose|m: int| 0 <= m < i && ds[m].cmd() == c;
        lemma_earliest(ds, c, m);
    } else {
        assert(first_match(ds, c, i));
    }
}

/// Registering one more directive never changes how a command string that
/// already resolves is classified: the earlier registration shadows it.
pub proof fn law_registration_keeps_resolution(ds: Seq<Directive>, d: Directive, c: Seq<char>)
    requires
        resolve(ds, c) != StateMessage::UnknownCommand,
    ensures
        resolve(ds.push(d), c) == resolve(ds, c),
{
    lemma_resolve_cases(ds, c);
    let i = choose|i: int|
        #![trigger outcome_at(ds, i)]
        first_match(ds, c, i) && resolve(ds, c) == outcome_at(ds, i);
    let ext = ds.push(d);
    assert(first_match(ext, c, i));
    lemma_resolve_at(ext, c, i);
    assert(outcome_at(ext, i) == outcome_at(ds, i));
}

/// A string that no directive is registered under is unknown, and the line
/// leaves the cursor where it was.
pub proof fn law_unregistered_is_unknown(ds: Seq<Directive>, cur: int, input: Seq<char>)
    requires
        forall|i: int| 0 <= i < ds.len() ==> ds[i].cmd() != input,
    ensures
        resolve(ds, input) == StateMessage::UnknownCommand,
        line_step(ds, cur, input) == (cur, Effect::Unknown),
{
    assert(!exists|i: int| first_match(ds, input, i));
}

/// From a branch with a parent, `up` moves the cursor to exactly that parent.
pub proof fn law_up_moves_to_parent(ds: Seq<Directive>, cur: int, p: usize)
    requires
        is_branch_at(ds, cur),
        parent_of(ds, cur) == Some(p),
        is_branch_at(ds, p as int),
    ensures
        action_step(ds, cur, MetaAction::Up) == (p as int, Effect::Proceed),
{
}

/// At the root, both `up` and `exit` terminate the shell.
pub proof fn law_root_terminates(ds: Seq<Directive>, cur: int)
    requires
        is_branch_at(ds, cur),
        parent_of(ds, cur) == None::<usize>,
    ensures
        action_step(ds, cur, MetaAction::Up) == (cur, Effect::Terminate),
        action_step(ds, cur, MetaAction::Exit) == (cur, Effect::Terminate),
{
}

/// Handling an unknown line twice in a row gives the same outcome both times
/// and leaves the cursor unchanged after each.
pub proof fn law_unknown_idempotent(ds: Seq<Directive>, cur: int, input: Seq<char>)
    requires
        resolve(ds, input) == StateMessage::UnknownCommand,
    ensures
        line_step(ds, cur, input) == (cur, Effect::Unknown),
        line_step(ds, line_step(ds, cur, input).0, input) == line_step(ds, cur, input),
{
}

} // verus!
