//! Operations run against a store, and what they come to.

use crate::flow::{produced_in, products, step_outcome, Batch, Flow, Outcome};
use crate::memory_store::MemoryStore;
use crate::store::Step;
use vstd::prelude::*;

verus! {

impl MemoryStore {
    /// Runs an operation from a step to its end, asking this store.
    pub fn run<F: Flow>(&mut self, start: Step<F, F::Output>) -> (r: Batch<F::Output>)
        requires
            start matches Step::Ask { state, .. } ==> state.wf(),
        ensures
            (Outcome {
                store: final(self)@,
                produced: products::<F>(r.completed@),
                failure: r.failure,
            }) == step_outcome(start, old(self)@),
    {
        let mut completed: Vec<F::Output> = Vec::new();
        let ghost goal = step_outcome(start, self@);
        let mut step = start;
        proof {
            assert(products::<F>(completed@) =~= Seq::<F::OutputView>::empty());
            assert(goal.after(products::<F>(completed@)).produced =~= goal.produced);
        }
        loop
            invariant
                step matches Step::Ask { state, .. } ==> state.wf(),
                goal == step_outcome(step, self@).after(products::<F>(completed@)),
                goal == step_outcome(start, old(self)@),
            decreases
                (match step {
                    Step::Ask { state, .. } => state.rank() + 1,
                    Step::Done { .. } => 0,
                }),
        {
            match step {
                Step::Done { produced, failure } => {
                    let ghost before = completed@;
                    match produced {
                        Some(x) => {
                            completed.push(x);
                            assert(products::<F>(completed@) =~= products::<F>(before)
                                + produced_in::<F>(produced));
                        },
                        None => {
                            assert(products::<F>(completed@) =~= products::<F>(before)
                                + produced_in::<F>(produced));
                        },
                    }
                    return Batch { completed, failure };
                },
                Step::Ask { state, produced } => {
                    let ghost before = completed@;
                    let ghost m = self@;
                    match produced {
                        Some(x) => {
                            completed.push(x);
                            assert(products::<F>(completed@) =~= products::<F>(before)
                                + produced_in::<F>(produced));
                        },
                        None => {
                            assert(products::<F>(completed@) =~= products::<F>(before)
                                + produced_in::<F>(produced));
                        },
                    }
                    let reply = self.execute(&state.to_request());
                    proof {
                        state.lemma_step(m, reply);
                        let rest = state.outcome(m);
                        assert(products::<F>(before) + (produced_in::<F>(produced) + rest.produced)
                            =~= products::<F>(completed@) + rest.produced);
                    }
                    step = state.resume(reply);
                },
            }
        }
    }
}

} // verus!
