//! A handler as a conversation with the store. A flow never touches a
//! store itself: it names the statement it waits on, takes the answer, and
//! in the end names its outcome. Whoever holds the store runs the loop.

use vstd::prelude::*;
use crate::store::memory::MemoryStore;
use crate::store::protocol::{Answer, Statement};
use crate::store::semantics::StoreState;
use crate::store::validity::{lemma_execute_keeps_clock, lemma_execute_keeps_well_formed};

verus! {

/// One handler, from its first statement to its outcome.
pub trait Flow: Sized {
    /// What the handler hands to its transport when it is done.
    type Outcome;

    /// The statement that the flow waits on; `None` once it has finished.
    spec fn pending(&self) -> Option<Statement>;

    /// The flow after the store has answered the pending statement.
    spec fn after(self, answer: Answer) -> Self;

    /// What a finished flow hands over.
    spec fn outcome(self) -> Self::Outcome;

    /// An upper bound on the statements that the flow may still issue.
    spec fn steps_left(&self) -> nat;

    /// Every answer brings the flow nearer to its end.
    proof fn lemma_progress(self, answer: Answer)
        requires
            self.pending() is Some,
        ensures
            self.after(answer).steps_left() < self.steps_left(),
    ;

    fn request(&self) -> (statement: Option<Statement>)
        ensures
            statement == self.pending(),
    ;

    fn resume(self, answer: Answer) -> (next: Self)
        requires
            self.pending() is Some,
        ensures
            next == self.after(answer),
    ;

    fn finish(self) -> (outcome: Self::Outcome)
        requires
            self.pending() is None,
        ensures
            outcome == self.outcome(),
    ;
}

/// The store and the flow once the flow has been run to its end against a
/// store that answers as the semantics say.
pub open spec fn run<F: Flow>(store: StoreState, flow: F) -> (StoreState, F)
    decreases flow.steps_left(),
{
    match flow.pending() {
        Some(statement) => {
            let (next, answer) = store.execute(statement);
            proof {
                flow.lemma_progress(answer);
            }
            run(next, flow.after(answer))
        },
        None => (store, flow),
    }
}

/// A flow that has been run has finished.
pub proof fn law_run_finishes<F: Flow>(store: StoreState, flow: F)
    ensures
        run(store, flow).1.pending() is None,
    decreases flow.steps_left(),
{
    match flow.pending() {
        Some(statement) => {
            let (next, answer) = store.execute(statement);
            flow.lemma_progress(answer);
            law_run_finishes(next, flow.after(answer));
        },
        None => {},
    }
}

/// Whatever the handler, a valid store is still valid when the handler
/// has run.
pub proof fn law_run_keeps_well_formed<F: Flow>(store: StoreState, flow: F)
    requires
        store.well_formed(),
    ensures
        run(store, flow).0.well_formed(),
    decreases flow.steps_left(),
{
    match flow.pending() {
        Some(statement) => {
            let (next, answer) = store.execute(statement);
            flow.lemma_progress(answer);
            lemma_execute_keeps_well_formed(store, statement);
            law_run_keeps_well_formed(next, flow.after(answer));
        },
        None => {},
    }
}

/// Whatever the handler, it leaves the clock of the store alone, never
/// lowers the next id, and brings no outage where none lay ahead.
pub proof fn law_run_keeps_clock<F: Flow>(store: StoreState, flow: F)
    ensures
        run(store, flow).0.now == store.now,
        run(store, flow).0.next_id >= store.next_id,
        store.budget is None ==> run(store, flow).0.budget is None,
    decreases flow.steps_left(),
{
    match flow.pending() {
        Some(statement) => {
            let (next, answer) = store.execute(statement);
            flow.lemma_progress(answer);
            lemma_execute_keeps_clock(store, statement);
            law_run_keeps_clock(next, flow.after(answer));
        },
        None => {},
    }
}

/// Runs a flow to its end against the in-memory store.
pub fn drive<F: Flow>(store: &mut MemoryStore, flow: F) -> (done: F)
    requires
        old(store)@.well_formed(),
    ensures
        (final(store)@, done) == run(old(store)@, flow),
        final(store)@.well_formed(),
        done.pending() is None,
{
    let mut flow = flow;
    let ghost start = flow;
    loop
        invariant
            store@.well_formed(),
            run(store@, flow) == run(old(store)@, start),
        ensures
            (store@, flow) == run(old(store)@, start),
            flow.pending() is None,
        decreases flow.steps_left(),
    {
        match flow.request() {
            Some(statement) => {
                let answer = store.perform(statement);
                proof {
                    flow.lemma_progress(answer);
                }
                flow = flow.resume(answer);
            },
            None => {
                break ;
            },
        }
    }
    flow
}

} // verus!
