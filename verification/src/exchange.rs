//! An operation in flight: the transfers it still needs, one at a time.

use crate::error::Error;
use crate::reply::Reply;
use crate::transfer::Transfer;
use std::marker::PhantomData;
use vstd::prelude::*;

verus! {

/// An operation on the peripheral that has been started and has not ended.
///
/// It always has a transfer that is due. Whoever holds the link performs that
/// transfer and hands its outcome to [`Exchange::advance`], which asks for the
/// next transfer, yields the operation's value, or reports the failure. An
/// exchange that has ended is gone: nothing is left to ask a transfer of.
#[derive(Debug)]
pub struct Exchange<T: Transfer, R: Reply> {
    plan: Vec<T>,
    position: usize,
    reply: PhantomData<R>,
}

/// What an exchange has come to after a transfer that succeeded.
#[derive(Debug)]
pub enum Progress<T: Transfer, R: Reply> {
    /// Another transfer is due.
    Continue(Exchange<T, R>),
    /// The operation is complete and this is its value.
    Complete(R),
}

/// Where an operation stands after one transfer.
pub enum Step<T, R, E> {
    /// These transfers are still to be performed, the first of them next.
    Continue(Seq<T>),
    /// The operation is complete with this value; no transfer is left.
    Complete(R),
    /// The operation has failed with this error; no transfer is left.
    Failed(Error<E>),
}

/// How an operation went on a link: how many transfers were performed, and
/// the result if the operation has ended.
pub struct Course<R, E> {
    pub performed: nat,
    pub result: Option<Result<R, Error<E>>>,
}

/// Only the last of `transfers` reads, and it reads as many bytes as a value
/// of `R` takes.
pub open spec fn reads_at_end<T: Transfer, R: Reply>(transfers: Seq<T>) -> bool {
    forall|i: int|
        0 <= i < transfers.len() ==> (#[trigger] transfers[i]).spec_reads() == (if i + 1
            == transfers.len() {
            R::spec_width()
        } else {
            0
        })
}

/// One move of an operation: `outstanding` are the transfers it still needs,
/// `outcome` is how the first of them went, with the bytes it read.
///
/// A failure ends the operation at once, as a communication error around what
/// the link reported. A success moves on to the next transfer or, after the
/// last one, yields the value read from its bytes.
pub open spec fn step<T, R: Reply, E>(outstanding: Seq<T>, outcome: Result<Seq<u8>, E>) -> Step<
    T,
    R,
    E,
> {
    match outcome {
        Err(error) => Step::Failed(Error::CommError(error)),
        Ok(bytes) => if outstanding.len() > 1 {
            Step::Continue(outstanding.skip(1))
        } else {
            Step::Complete(R::decoded(bytes))
        },
    }
}

/// The course of an operation that needs `outstanding` on a link whose
/// transfers go as `outcomes` say, one outcome for each transfer performed.
/// The link is asked for a transfer only while the operation has not ended.
pub open spec fn course<T, R: Reply, E>(
    outstanding: Seq<T>,
    outcomes: Seq<Result<Seq<u8>, E>>,
) -> Course<R, E>
    decreases outcomes.len(),
{
    if outcomes.len() == 0 {
        Course { performed: 0, result: None }
    } else {
        match step::<T, R, E>(outstanding, outcomes[0]) {
            Step::Failed(error) => Course { performed: 1, result: Some(Err(error)) },
            Step::Complete(value) => Course { performed: 1, result: Some(Ok(value)) },
            Step::Continue(rest) => {
                let later = course::<T, R, E>(rest, outcomes.skip(1));
                Course { performed: later.performed + 1, result: later.result }
            },
        }
    }
}

/// The bytes of an outcome, as a sequence.
pub open spec fn outcome_view<E>(outcome: Result<Vec<u8>, E>) -> Result<Seq<u8>, E> {
    match outcome {
        Ok(bytes) => Ok(bytes@),
        Err(error) => Err(error),
    }
}

impl<T: Transfer, R: Reply> View for Exchange<T, R> {
    type V = Seq<T::V>;

    /// What the transfers that are still needed hold, in order.
    open spec fn view(&self) -> Seq<T::V> {
        self.outstanding().map_values(|transfer: T| transfer@)
    }
}

impl<T: Transfer, R: Reply> Exchange<T, R> {
    #[verifier::type_invariant]
    spec fn well_formed(&self) -> bool {
        &&& self.position < self.plan@.len()
        &&& reads_at_end::<T, R>(self.plan@)
    }

    /// The transfers this operation still needs, the one that is due first.
    pub closed spec fn outstanding(&self) -> Seq<T> {
        self.plan@.skip(self.position as int)
    }

    /// Starts an operation that needs the transfers of `plan`, in that order.
    pub(crate) fn begin(plan: Vec<T>) -> (exchange: Self)
        requires
            plan@.len() > 0,
            reads_at_end::<T, R>(plan@),
        ensures
            exchange.outstanding() == plan@,
            exchange@.len() == plan@.len(),
            forall|i: int| 0 <= i < plan@.len() ==> exchange@[i] == plan@[i]@,
    {
        Exchange { plan, position: 0, reply: PhantomData }
    }

    /// The transfer that is due.
    pub fn transfer(&self) -> (due: &T)
        ensures
            self.outstanding().len() > 0,
            reads_at_end::<T, R>(self.outstanding()),
            *due == self.outstanding()[0],
            due@ == self@[0],
    {
        proof {
            use_type_invariant(self);
            assert forall|i: int| 0 <= i < self.outstanding().len() implies (
            #[trigger] self.outstanding()[i]).spec_reads() == (if i + 1
                == self.outstanding().len() {
                R::spec_width()
            } else {
                0
            }) by {
                assert(self.outstanding()[i] == self.plan@[self.position + i]);
            }
        }
        &self.plan[self.position]
    }

    /// How many transfers are left, the one that is due included.
    pub fn remaining(&self) -> (count: usize)
        ensures
            count == self.outstanding().len(),
            count == self@.len(),
            count > 0,
    {
        proof {
            use_type_invariant(self);
        }
        self.plan.len() - self.position
    }

    /// Takes the outcome of the transfer that was due: the bytes it read, as
    /// many as the transfer reads, or what the link reported when it failed.
    ///
    /// A failure ends the operation with a communication error around what
    /// the link reported. After a success the next transfer is due or, if
    /// this was the last one, the operation ends with the value read from
    /// the bytes.
    pub fn advance<E>(self, outcome: Result<Vec<u8>, E>) -> (next: Result<Progress<T, R>, Error<E>>)
        requires
            outcome matches Ok(bytes) ==> bytes@.len() == self.outstanding()[0].spec_reads(),
        ensures
            match step::<T, R, E>(self.outstanding(), outcome_view(outcome)) {
                Step::Failed(error) => next == Err::<Progress<T, R>, Error<E>>(error),
                Step::Complete(value) => next == Ok::<Progress<T, R>, Error<E>>(
                    Progress::Complete(value),
                ),
                Step::Continue(rest) => next matches Ok(Progress::Continue(exchange))
                    && exchange.outstanding() == rest && exchange@ == self@.skip(1),
            },
    {
        proof {
            use_type_invariant(&self);
        }
        match outcome {
            Err(error) => Err(Error::CommError(error)),
            Ok(bytes) => {
                if self.plan.len() - self.position > 1 {
                    let Exchange { plan, position, reply } = self;
                    let exchange = Exchange { plan, position: position + 1, reply };
                    assert(exchange.outstanding() =~= self.outstanding().skip(1));
                    assert(exchange@ =~= self@.skip(1));
                    Ok(Progress::Continue(exchange))
                } else {
                    Ok(Progress::Complete(R::decode(&bytes)))
                }
            },
        }
    }
}

/// A failure ends the operation where it happens: if the transfers before
/// transfer `failed` succeed and that one fails, the operation ends with the
/// communication error around what the link reported, and no transfer after
/// that one is performed.
pub proof fn lemma_failure_ends_operation<T, R: Reply, E>(
    outstanding: Seq<T>,
    outcomes: Seq<Result<Seq<u8>, E>>,
    failed: int,
)
    requires
        0 <= failed < outstanding.len(),
        failed < outcomes.len(),
        outcomes[failed] is Err,
        forall|i: int| 0 <= i < failed ==> outcomes[i] is Ok,
    ensures
        course::<T, R, E>(outstanding, outcomes) == (Course::<R, E> {
            performed: (failed + 1) as nat,
            result: Some(Err(Error::CommError(outcomes[failed]->Err_0))),
        }),
    decreases failed,
{
    if failed > 0 {
        let rest = outstanding.skip(1);
        let later = outcomes.skip(1);
        assert(later[failed - 1] == outcomes[failed]);
        assert forall|i: int| 0 <= i < failed - 1 implies later[i] is Ok by {
            assert(later[i] == outcomes[i + 1]);
        }
        assert(outcomes[0] is Ok);
        lemma_failure_ends_operation::<T, R, E>(rest, later, failed - 1);
    }
}

/// If every transfer succeeds, the operation performs each of its transfers
/// once and ends with the value read from the bytes of the last one.
pub proof fn lemma_success_completes_operation<T, R: Reply, E>(
    outstanding: Seq<T>,
    outcomes: Seq<Result<Seq<u8>, E>>,
)
    requires
        0 < outstanding.len() <= outcomes.len(),
        forall|i: int| 0 <= i < outstanding.len() ==> outcomes[i] is Ok,
    ensures
        course::<T, R, E>(outstanding, outcomes) == (Course::<R, E> {
            performed: outstanding.len(),
            result: Some(Ok(R::decoded(outcomes[outstanding.len() - 1]->Ok_0))),
        }),
    decreases outstanding.len(),
{
    assert(outcomes[0] is Ok);
    if outstanding.len() > 1 {
        let rest = outstanding.skip(1);
        let later = outcomes.skip(1);
        assert forall|i: int| 0 <= i < rest.len() implies later[i] is Ok by {
            assert(later[i] == outcomes[i + 1]);
        }
        assert(later[rest.len() - 1] == outcomes[outstanding.len() - 1]);
        lemma_success_completes_operation::<T, R, E>(rest, later);
    }
}

/// While transfers succeed and some are left, the operation has not ended and
/// has performed one transfer for each outcome.
pub proof fn lemma_operation_in_flight<T, R: Reply, E>(
    outstanding: Seq<T>,
    outcomes: Seq<Result<Seq<u8>, E>>,
)
    requires
        outcomes.len() < outstanding.len(),
        forall|i: int| 0 <= i < outcomes.len() ==> outcomes[i] is Ok,
    ensures
        course::<T, R, E>(outstanding, outcomes) == (Course::<R, E> {
            performed: outcomes.len(),
            result: None,
        }),
    decreases outcomes.len(),
{
    if outcomes.len() > 0 {
        let rest = outstanding.skip(1);
        let later = outcomes.skip(1);
        assert(outcomes[0] is Ok);
        assert forall|i: int| 0 <= i < later.len() implies later[i] is Ok by {
            assert(later[i] == outcomes[i + 1]);
        }
        lemma_operation_in_flight::<T, R, E>(rest, later);
    }
}

} // verus!
