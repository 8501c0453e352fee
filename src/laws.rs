//! What the engine guarantees of the durable record and the firewall set,
//! where every step handed out is performed faithfully.
use vstd::prelude::*;

use crate::database::{apply_store_op, is_mutation, StoreOp};
use crate::engine::{request_next, request_start, store_op_of, Event, Operation, Outcome, StepModel};
use crate::nftables::apply_set_action;
use crate::reconcile::{startup_next, startup_start, StartupEventModel};
use crate::Addr;

verus! {

/// The contents of the two stores.
pub struct World {
    /// The durable record.
    pub store: Set<Addr>,
    /// The firewall set.
    pub enforced: Set<Addr>,
}

/// `w` after `step` succeeded.
pub open spec fn perform(w: World, step: StepModel) -> World {
    match step {
        StepModel::Store(op) => World { store: apply_store_op(w.store, op), ..w },
        StepModel::Enforce(action, elems) => World {
            enforced: apply_set_action(w.enforced, action, elems),
            ..w
        },
        StepModel::Finish(_) => w,
    }
}

/// What a request's collaborator reports after performing `step` on `w`
/// successfully.
pub open spec fn success_event(w: World, step: StepModel) -> Event {
    match step {
        StepModel::Store(StoreOp::Contains(a)) => Event::StoreAnswered(w.store.contains(a)),
        StepModel::Store(_) => Event::StoreDone,
        _ => Event::EnforceDone,
    }
}

/// The world and outcome after an authorized request for `op` on `a` ran
/// with every step succeeding.
pub open spec fn run_request(w: World, op: Operation, a: Addr) -> (World, StepModel) {
    let (r1, s1) = request_start(op, a, true);
    let w1 = perform(w, s1);
    let (r2, s2) = request_next(r1, success_event(w, s1));
    let w2 = perform(w1, s2);
    let (r3, s3) = request_next(r2, success_event(w1, s2));
    (perform(w2, s3), s3)
}

/// The world and outcome after startup ran with every step succeeding and
/// the durable record listing `listed`.
pub open spec fn run_startup(w: World, listed: Seq<Addr>) -> (World, StepModel) {
    let (t0, s0) = startup_start();
    let w1 = perform(w, s0);
    let (t1, s1) = startup_next(t0, StartupEventModel::StoreDone);
    let w2 = perform(w1, s1);
    let (t2, s2) = startup_next(t1, StartupEventModel::Listed(listed));
    let w3 = perform(w2, s2);
    let (t3, s3) = startup_next(t2, StartupEventModel::EnforceDone);
    let w4 = perform(w3, s3);
    let (t4, s4) = startup_next(t3, StartupEventModel::EnforceDone);
    (perform(w4, s4), s4)
}

pub open spec fn is_mutation_op(op: Operation) -> bool {
    op == Operation::Add || op == Operation::Remove
}

proof fn lemma_singleton_to_set(a: Addr)
    ensures
        seq![a].to_set() == set![a],
{
    assert(seq![a].to_set() =~= set![a]) by {
        assert(seq![a][0] == a);
    }
}

/// An authorized mutation of `a` that succeeds leaves `a` recorded and
/// enforced exactly where the operation is an add, and every other address
/// as it was in each store.
pub proof fn lemma_mutation_effect(w: World, op: Operation, a: Addr)
    requires
        is_mutation_op(op),
    ensures
        run_request(w, op, a).1 == StepModel::Finish(Outcome::Done),
        run_request(w, op, a).0.store == if op == Operation::Add {
            w.store.insert(a)
        } else {
            w.store.remove(a)
        },
        run_request(w, op, a).0.enforced == if op == Operation::Add {
            w.enforced.insert(a)
        } else {
            w.enforced.remove(a)
        },
{
    lemma_singleton_to_set(a);
    let r = run_request(w, op, a);
    if op == Operation::Add {
        assert(r.0.enforced =~= w.enforced.insert(a));
    } else {
        assert(r.0.enforced =~= w.enforced.remove(a));
    }
}

/// Doing an add (or a remove) of `a` twice in sequence leaves both stores
/// as doing it once does.
pub proof fn lemma_mutation_idempotent(w: World, op: Operation, a: Addr)
    requires
        is_mutation_op(op),
    ensures
        run_request(run_request(w, op, a).0, op, a).0 == run_request(w, op, a).0,
{
    let once = run_request(w, op, a).0;
    lemma_mutation_effect(w, op, a);
    lemma_mutation_effect(once, op, a);
    let twice = run_request(once, op, a).0;
    assert(twice.store =~= once.store);
    assert(twice.enforced =~= once.enforced);
}

/// Whatever the firewall set held before, startup that reads `listed` from
/// a durable record holding `listed`'s addresses ends ready, with the
/// firewall set equal to the record and the record unchanged.
pub proof fn lemma_reconciliation(w: World, listed: Seq<Addr>)
    requires
        listed.to_set() == w.store,
    ensures
        run_startup(w, listed).1 == StepModel::Finish(Outcome::Done),
        run_startup(w, listed).0.store == w.store,
        run_startup(w, listed).0.enforced == w.store,
{
    let r = run_startup(w, listed);
    if listed.len() == 0 {
        assert(listed =~= Seq::<Addr>::empty());
        assert(listed.to_set() =~= Set::<Addr>::empty());
        assert(r.0.enforced =~= Set::<Addr>::empty());
    } else {
        assert(Seq::<Addr>::empty().to_set() =~= Set::<Addr>::empty());
        assert(r.0.enforced =~= Set::<Addr>::empty().union(listed.to_set()));
    }
}

/// An authorized mutation changes the durable record before it touches the
/// firewall set. Where the process stops between the two steps, the record
/// already holds the request's final state, and the next startup brings the
/// firewall set to it.
pub proof fn lemma_crash_between_steps(w: World, op: Operation, a: Addr, listed: Seq<Addr>)
    requires
        is_mutation_op(op),
        listed.to_set() == perform(w, request_start(op, a, true).1).store,
    ensures
        request_start(op, a, true).1 == StepModel::Store(store_op_of(op, a)),
        is_mutation(store_op_of(op, a)),
        perform(w, request_start(op, a, true).1).enforced == w.enforced,
        perform(w, request_start(op, a, true).1).store == run_request(w, op, a).0.store,
        run_startup(perform(w, request_start(op, a, true).1), listed).0.enforced
            == run_request(w, op, a).0.store,
{
    lemma_mutation_effect(w, op, a);
    lemma_reconciliation(perform(w, request_start(op, a, true).1), listed);
}

/// Two mutations of the same address, one after the other: both stores end
/// up agreeing on the address, in the state that the later one asked for;
/// where the stores agreed before, they agree after.
pub proof fn lemma_serialized_mutations(w: World, first: Operation, second: Operation, a: Addr)
    requires
        is_mutation_op(first),
        is_mutation_op(second),
    ensures
        run_request(run_request(w, first, a).0, second, a).0.store.contains(a) == (second
            == Operation::Add),
        run_request(run_request(w, first, a).0, second, a).0.enforced.contains(a) == (second
            == Operation::Add),
        w.store == w.enforced ==> run_request(run_request(w, first, a).0, second, a).0.store
            == run_request(run_request(w, first, a).0, second, a).0.enforced,
{
    let w1 = run_request(w, first, a).0;
    lemma_mutation_effect(w, first, a);
    lemma_mutation_effect(w1, second, a);
    let w2 = run_request(w1, second, a).0;
    if w.store == w.enforced {
        assert(w1.store =~= w1.enforced);
        assert(w2.store =~= w2.enforced);
    }
}

/// An authorized check answers whether `a` is recorded and changes neither
/// store.
pub proof fn lemma_check_reads_only(w: World, a: Addr)
    ensures
        run_request(w, Operation::Check, a).1 == StepModel::Finish(
            Outcome::Present(w.store.contains(a)),
        ),
        run_request(w, Operation::Check, a).0 == w,
{
}

/// An unauthorized request ends at once as unauthorized, whatever the
/// address and whatever is recorded: it hands out no work for either store,
/// and every later event leaves it there.
pub proof fn lemma_unauthorized_inert(w: World, op: Operation, a: Addr, b: Addr, e: Event)
    ensures
        request_start(op, a, false).1 == StepModel::Finish(Outcome::Unauthorized),
        request_start(op, a, false).1 == request_start(op, b, false).1,
        perform(w, request_start(op, a, false).1) == w,
        request_next(request_start(op, a, false).0, e) == request_start(op, a, false),
{
}

} // verus!
