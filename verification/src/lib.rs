//! The daemon's decisions as verified functions: which runtime to start or
//! stop, which provider to compile next, what progress a watcher sees, and
//! which requests the control socket answers.
//!
//! Everything that touches a disk, a socket, a process or a clock lives
//! outside this crate and hands its results in as plain values.
use vstd::prelude::*;

pub mod auth_fingerprint;
pub mod control;
pub mod credential_codec;
pub mod credential_document;
pub mod digest;
pub mod filesystem_supervisor;
pub mod fs_runtime;
pub mod generation_builder;
pub mod list;
pub mod name;
pub mod order;
pub mod progress;
pub mod provider_bundle;
pub mod provider_preparer;
pub mod records;
pub mod serving_reconciler;
pub mod spelling_laws;
pub mod startup;
pub mod table;
pub mod text;

verus! {

/// The failures among some results, in their order.
pub open spec fn failures<E>(results: Seq<Result<(), E>>) -> Seq<E>
    decreases results.len(),
{
    if results.len() == 0 {
        Seq::empty()
    } else {
        let earlier = failures(results.drop_last());
        match results.last() {
            Ok(_) => earlier,
            Err(error) => earlier.push(error),
        }
    }
}

/// There is no failure exactly where every result is a success.
pub proof fn no_failure_is_success<E>(results: Seq<Result<(), E>>)
    ensures
        failures(results).len() == 0 <==> forall|i: int|
            0 <= i < results.len() ==> #[trigger] results[i] is Ok,
    decreases results.len(),
{
    if results.len() > 0 {
        let earlier = results.drop_last();
        no_failure_is_success(earlier);
        if failures(results).len() == 0 {
            assert forall|i: int| 0 <= i < results.len() implies #[trigger] results[i] is Ok by {
                if i < earlier.len() {
                    assert(earlier[i] == results[i]);
                }
            }
        } else if results.last() is Ok {
            let i = choose|i: int| 0 <= i < earlier.len() && !(#[trigger] earlier[i] is Ok);
            assert(!(results[i] is Ok));
        } else {
            assert(!(results[results.len() - 1] is Ok));
        }
    }
}

/// The first failure of `results` in order, or success when there is none, and
/// the failures after it, for the caller to make known: a post-mortem needs the
/// whole sequence, not its first casualty.
pub fn first_error<E>(results: Vec<Result<(), E>>) -> (outcome: (Result<(), E>, Vec<E>))
    ensures
        match outcome.0 {
            Ok(_) => failures(results@).len() == 0 && outcome.1@.len() == 0,
            Err(error) => failures(results@) == seq![error] + outcome.1@,
        },
        outcome.0 is Ok <==> forall|i: int|
            0 <= i < results@.len() ==> #[trigger] results@[i] is Ok,
{
    let ghost all = results@;
    let mut first: Result<(), E> = Ok(());
    let mut rest: Vec<E> = Vec::new();
    assert(all.take(0) =~= Seq::empty());
    for result in it: results
        invariant
            it.seq() == all,
            match first {
                Ok(_) => failures(all.take(it.index() as int)).len() == 0 && rest@.len() == 0,
                Err(error) => failures(all.take(it.index() as int)) == seq![error] + rest@,
            },
    {
        let ghost at = it.index() as int;
        proof {
            assert(all.take(at + 1).drop_last() =~= all.take(at));
            assert(all.take(at + 1).last() == all[at]);
        }
        if let Err(error) = result {
            if first.is_ok() {
                first = Err(error);
                assert(failures(all.take(at + 1)) =~= seq![error] + rest@);
            } else {
                let ghost before = rest@;
                rest.push(error);
                assert(rest@ =~= before.push(error));
                assert(failures(all.take(at + 1)) =~= failures(all.take(at)).push(error));
                assert(failures(all.take(at + 1)) =~= seq![first->Err_0] + rest@);
            }
        }
    }
    proof {
        assert(all.take(all.len() as int) =~= all);
        no_failure_is_success(all);
    }
    (first, rest)
}

} // verus!
