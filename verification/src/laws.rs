//! The guarantees of the dispatch core, stated once and proved for every
//! automaton, event and command result.

use vstd::prelude::*;

use crate::automata::action_of;
use crate::automata::lookup_spec;
use crate::automata::update_rel;
use crate::automata::Automata;
use crate::automata::CmdResult;
use crate::automata::Event;
use crate::automata::Exec;
use crate::automata::Output;
use crate::automata::State;
use crate::text::contains_sub;
use crate::Error;

verus! {

/// `name` is bound to a state of `a`.
pub open spec fn has_state(a: Automata, name: Seq<char>) -> bool {
    lookup_spec(a.states@, name) is Some
}

/// Every transition target this action may set names a state of `a`.
pub open spec fn exec_targets_valid(e: Exec, a: Automata) -> bool {
    &&& (e.on_success matches Some(t) ==> has_state(a, t@))
    &&& (e.on_failure matches Some(t) ==> has_state(a, t@))
    &&& (e.on_error matches Some(t) ==> has_state(a, t@))
}

/// Every action bound anywhere in `a` only targets states of `a`.
pub open spec fn targets_valid(a: Automata) -> bool {
    &&& (a.on_init matches Some(e) ==> exec_targets_valid(e, a))
    &&& forall|i: int|
        0 <= i < a.states@.len() ==> {
            &&& (#[trigger] a.states@[i].1.on_press matches Some(e) ==> exec_targets_valid(e, a))
            &&& (a.states@[i].1.on_poll matches Some(e) ==> exec_targets_valid(e, a))
        }
}

/// A successful lookup returns one of the entries.
proof fn lemma_lookup_is_element(entries: Seq<(String, State)>, name: Seq<char>)
    requires
        lookup_spec(entries, name) is Some,
    ensures
        exists|i: int|
            0 <= i < entries.len() && #[trigger] entries[i].1 == lookup_spec(entries, name)->0,
    decreases entries.len(),
{
    if entries[0].0@ == name {
        assert(entries[0].1 == lookup_spec(entries, name)->0);
    } else {
        lemma_lookup_is_element(entries.drop_first(), name);
        let j = choose|j: int|
            0 <= j < entries.drop_first().len() && #[trigger] entries.drop_first()[j].1
                == lookup_spec(entries.drop_first(), name)->0;
        assert(entries[j + 1].1 == lookup_spec(entries, name)->0);
    }
}

/// A current state bound to no state makes dispatch fail with `InvalidState`
/// and leave the automaton untouched; no action ran, no transition happened
/// and nothing is rendered.
pub proof fn lemma_invalid_state_no_effect(
    pre: Automata,
    post: Automata,
    event: Event,
    run: CmdResult,
    r: Result<bool, Error>,
)
    requires
        update_rel(pre, post, event, run, r),
        !has_state(pre, pre.state@),
    ensures
        r == Result::<bool, Error>::Err(Error::InvalidState),
        post == pre,
{
}

/// Dispatch keeps "the current state names a state": where it held before and
/// every bound action only targets existing states, it holds after, whatever
/// the event and whatever the external command returned.
pub proof fn lemma_dispatch_preserves_validity(
    pre: Automata,
    post: Automata,
    event: Event,
    run: CmdResult,
    r: Result<bool, Error>,
)
    requires
        update_rel(pre, post, event, run, r),
        has_state(pre, pre.state@),
        targets_valid(pre),
    ensures
        has_state(post, post.state@),
{
    let st = lookup_spec(pre.states@, pre.state@)->0;
    match action_of(pre, st, event) {
        Option::None => {},
        Option::Some(e) => {
            match event {
                Event::Init => {},
                Event::Press | Event::Poll => {
                    lemma_lookup_is_element(pre.states@, pre.state@);
                },
            }
            assert(exec_targets_valid(e, pre));
            match e.target_for(e.classify_spec(run)) {
                Option::None => {},
                Option::Some(t) => {
                    assert(has_state(pre, t@));
                    assert(post.states@ == pre.states@);
                },
            }
        },
    }
}

/// Dispatching an event with no bound action never mutates the automaton —
/// in particular not its current state — and reports no transition, so the
/// caller renders nothing.
pub proof fn lemma_no_action_no_effect(
    pre: Automata,
    post: Automata,
    event: Event,
    run: CmdResult,
    r: Result<bool, Error>,
)
    requires
        update_rel(pre, post, event, run, r),
        lookup_spec(pre.states@, pre.state@) matches Some(st) && action_of(pre, st, event)
            is None,
    ensures
        post == pre,
        r == Result::<bool, Error>::Ok(false),
{
}

/// The outcome of a run depends on nothing but whether a command is bound,
/// the two filters, and the command's exit status and captured output.
pub proof fn lemma_classify_pure(e1: Exec, e2: Exec, run: CmdResult)
    requires
        e1.func is Some <==> e2.func is Some,
        e1.success_filter == e2.success_filter,
        e1.failure_filter == e2.failure_filter,
    ensures
        e1.classify_spec(run) == e2.classify_spec(run),
{
}

/// The filters are independent vetoes over a clean exit: a configured success
/// filter missing from the output forces `Failure`, and a configured failure
/// filter present in the output forces `Failure` even where the success
/// filter matched. (A spawn failure or unclean exit is classified `Error`
/// before any filter is consulted, so those runs are left out here.)
pub proof fn lemma_filter_veto(e: Exec, out: String)
    requires
        e.func is Some,
    ensures
        e.success_filter matches Some(f) && !contains_sub(out@, f@)
            ==> e.classify_spec(
            CmdResult::Finished { exit_ok: true, stdout: Option::Some(out) },
        ) == Output::Failure,
        e.failure_filter matches Some(f) && contains_sub(out@, f@) ==> e.classify_spec(
            CmdResult::Finished { exit_ok: true, stdout: Option::Some(out) },
        ) == Output::Failure,
{
}

/// A transition occurs iff the transition-target field matching the actual
/// outcome is set; when it occurs the new current state is exactly that
/// target and dispatch reports it, telling the caller to render the new
/// state's display exactly once. When it does not, the automaton is untouched
/// and nothing is rendered.
pub proof fn lemma_transition(
    pre: Automata,
    post: Automata,
    event: Event,
    run: CmdResult,
    r: Result<bool, Error>,
)
    requires
        update_rel(pre, post, event, run, r),
        lookup_spec(pre.states@, pre.state@) matches Some(st) && action_of(pre, st, event)
            matches Some(e),
    ensures
        lookup_spec(pre.states@, pre.state@) matches Some(st) && action_of(pre, st, event)
            matches Some(e) ==> {
            &&& (e.target_for(e.classify_spec(run)) is Some <==> r == Result::<bool, Error>::Ok(
                true,
            ))
            &&& (e.target_for(e.classify_spec(run)) matches Some(t) ==> post.state@ == t@
                && post.states == pre.states && post.on_init == pre.on_init)
            &&& (e.target_for(e.classify_spec(run)) is None ==> post == pre && r == Result::<
                bool,
                Error,
            >::Ok(false))
        },
{
}

} // verus!
