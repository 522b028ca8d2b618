//! Operations as sequences of questions, and what they come to on a store
//! that answers as the model says.

use crate::error::ErrorKind;
use crate::model::StoreModel;
use crate::store::{Reply, Request, Step};
use vstd::prelude::*;

verus! {

/// What an operation comes to: the store as it leaves it, what it produced,
/// in order, and how it failed if it did.
pub struct Outcome<V> {
    pub store: StoreModel,
    pub produced: Seq<V>,
    pub failure: Option<ErrorKind>,
}

/// What an operation has completed, and how it failed if it did. What was
/// completed before a failure stays done.
#[derive(Debug)]
pub struct Batch<T> {
    pub completed: Vec<T>,
    pub failure: Option<ErrorKind>,
}

impl<T> Batch<T> {
    /// The first product of an operation that did not fail, if it has one;
    /// else the failure.
    pub open spec fn first(self) -> Result<Option<T>, ErrorKind> {
        match self.failure {
            Some(kind) => Err(kind),
            None => if self.completed@.len() > 0 {
                Ok(Some(self.completed@[0]))
            } else {
                Ok(None)
            },
        }
    }

    /// The product of an operation that produces at most one.
    pub fn single(self) -> (r: Result<Option<T>, ErrorKind>)
        ensures
            r == self.first(),
    {
        match self.failure {
            Some(kind) => Err(kind),
            None => {
                let mut completed = self.completed;
                if completed.len() > 0 {
                    Ok(Some(completed.swap_remove(0)))
                } else {
                    Ok(None)
                }
            },
        }
    }

    /// The product of an operation that must produce one: where it ends
    /// without failure and without product, the store has not kept its
    /// word.
    pub fn required(self) -> (r: Result<T, ErrorKind>)
        ensures
            r == match self.first() {
                Ok(Some(x)) => Ok::<T, ErrorKind>(x),
                Ok(None) => Err(ErrorKind::StoreFailure),
                Err(kind) => Err(kind),
            },
    {
        match self.single() {
            Ok(Some(x)) => Ok(x),
            Ok(None) => Err(ErrorKind::StoreFailure),
            Err(kind) => Err(kind),
        }
    }
}

impl<V> Outcome<V> {
    /// The same outcome, after `first` was produced before it.
    pub open spec fn after(self, first: Seq<V>) -> Outcome<V> {
        Outcome { store: self.store, produced: first + self.produced, failure: self.failure }
    }

    /// The outcome of an operation that ends at once with a failure.
    pub open spec fn fails(store: StoreModel, kind: ErrorKind) -> Outcome<V> {
        Outcome { store, produced: Seq::empty(), failure: Some(kind) }
    }

    /// The outcome of an operation that ends with one product.
    pub open spec fn gives(store: StoreModel, product: V) -> Outcome<V> {
        Outcome { store, produced: seq![product], failure: None }
    }
}

/// An outcome that nothing precedes is itself.
pub proof fn lemma_after_nothing<V>(o: Outcome<V>)
    ensures
        o.after(Seq::empty()) == o,
{
    assert(Seq::<V>::empty() + o.produced =~= o.produced);
}

/// An operation as a sequence of questions to the store.
///
/// A state says what to ask. The answer leads to the next state, perhaps
/// with a product, or to the end. The rank of the state falls with every
/// question, so every operation ends.
pub trait Flow: Sized {
    /// What the operation produces.
    type Output;

    /// A product as plain data.
    type OutputView;

    /// The state is one that the operation can be in.
    spec fn wf(&self) -> bool;

    /// What is asked in this state.
    spec fn request(&self) -> Request<'_>;

    /// A bound on the questions that can follow the one of this state.
    spec fn rank(&self) -> nat;

    /// The step that an answer leads to.
    spec fn next(self, reply: Reply) -> Step<Self, Self::Output>;

    /// A product as plain data.
    spec fn product(x: Self::Output) -> Self::OutputView;

    /// What the operation comes to from this state, on a store that answers
    /// as the model says.
    spec fn outcome(self, m: StoreModel) -> Outcome<Self::OutputView>;

    /// What to ask the store in this state.
    fn to_request(&self) -> (r: Request<'_>)
        requires
            self.wf(),
        ensures
            r == self.request(),
    ;

    /// Takes the store's answer and says how the operation goes on.
    fn resume(self, reply: Reply) -> (step: Step<Self, Self::Output>)
        requires
            self.wf(),
        ensures
            step == self.next(reply),
            step matches Step::Ask { state, .. } ==> state.wf() && state.rank() < self.rank(),
    ;

    /// One question, answered as the model says, leaves what the operation
    /// comes to as it was.
    proof fn lemma_step(self, m: StoreModel, reply: Reply)
        requires
            self.wf(),
            reply@ == m.answer(self.request()).1,
        ensures
            match self.next(reply) {
                Step::Done { produced, failure } => self.outcome(m) == (Outcome {
                    store: m.answer(self.request()).0,
                    produced: match produced {
                        Some(x) => seq![Self::product(x)],
                        None => Seq::empty(),
                    },
                    failure,
                }),
                Step::Ask { state, produced } => self.outcome(m) == state.outcome(
                    m.answer(self.request()).0,
                ).after(
                    match produced {
                        Some(x) => seq![Self::product(x)],
                        None => Seq::empty(),
                    },
                ),
            },
    ;
}

/// The products of a sequence as plain data.
pub open spec fn products<F: Flow>(v: Seq<F::Output>) -> Seq<F::OutputView> {
    v.map_values(|x: F::Output| F::product(x))
}

/// What was produced in a step, as a sequence of one or none.
pub open spec fn produced_in<F: Flow>(produced: Option<F::Output>) -> Seq<F::OutputView> {
    match produced {
        Some(x) => seq![F::product(x)],
        None => Seq::empty(),
    }
}

/// What an operation comes to from a step.
pub open spec fn step_outcome<F: Flow>(step: Step<F, F::Output>, m: StoreModel) -> Outcome<
    F::OutputView,
> {
    match step {
        Step::Done { produced, failure } => Outcome {
            store: m,
            produced: produced_in::<F>(produced),
            failure,
        },
        Step::Ask { state, produced } => state.outcome(m).after(produced_in::<F>(produced)),
    }
}

} // verus!
