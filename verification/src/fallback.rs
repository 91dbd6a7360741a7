//! The two-endpoint fallback policy, as an explicit machine.
//!
//! Every operation runs the same policy: attempt the primary endpoint and,
//! only if that attempt fails at the transport level and a second endpoint
//! is configured, attempt the fallback endpoint once, returning whatever
//! the second attempt yields. A delivered response — whatever its status
//! code or payload — ends the run at once; there is no further retry, no
//! backoff, and no memory of which endpoint succeeded last.

use vstd::prelude::*;

verus! {

/// Where a run of the policy stands: about to contact the primary
/// endpoint, about to contact the fallback after a primary transport
/// failure, or finished with an outcome.
pub enum FallbackState<T, E> {
    TryPrimary,
    TryFallback { first_failure: E },
    Done { outcome: Result<T, E> },
}

impl<T, E> FallbackState<T, E> {
    /// The index of the endpoint the policy wants to contact next, if any:
    /// the primary first, the fallback after a primary transport failure,
    /// nothing once the run is finished.
    pub open spec fn spec_next_endpoint(self) -> Option<int> {
        match self {
            FallbackState::TryPrimary => Some(0),
            FallbackState::TryFallback { .. } => Some(1),
            FallbackState::Done { .. } => None,
        }
    }

    /// How the run advances on the outcome of the attempt it asked for,
    /// with `n` endpoints configured. A delivered response finishes the
    /// run with that response. A transport failure of the primary attempt
    /// moves to the fallback when a second endpoint exists and finishes
    /// with the failure otherwise; the outcome of the fallback attempt is
    /// final either way, so a second failure replaces the first.
    pub open spec fn spec_step(self, n: int, outcome: Result<T, E>) -> FallbackState<T, E> {
        match self {
            FallbackState::TryPrimary => match outcome {
                Result::Ok(v) => FallbackState::Done { outcome: Ok(v) },
                Result::Err(e) => if n > 1 {
                    FallbackState::TryFallback { first_failure: e }
                } else {
                    FallbackState::Done { outcome: Err(e) }
                },
            },
            FallbackState::TryFallback { .. } => FallbackState::Done { outcome },
            FallbackState::Done { .. } => self,
        }
    }

    /// The endpoint index the policy wants to contact next, if any:
    /// exactly [`FallbackState::spec_next_endpoint`].
    pub fn next_endpoint(&self) -> (r: Option<usize>)
        ensures
            match r {
                Some(i) => self.spec_next_endpoint() == Some(i as int),
                None => self.spec_next_endpoint() is None,
            },
    {
        match self {
            FallbackState::TryPrimary => Some(0),
            FallbackState::TryFallback { .. } => Some(1),
            FallbackState::Done { .. } => None,
        }
    }

    /// Advances the run on the outcome of the attempt it asked for, with
    /// `n` endpoints configured: exactly [`FallbackState::spec_step`].
    pub fn step(self, n: usize, outcome: Result<T, E>) -> (r: Self)
        ensures
            r == self.spec_step(n as int, outcome),
    {
        match self {
            FallbackState::TryPrimary => match outcome {
                Ok(v) => FallbackState::Done { outcome: Ok(v) },
                Err(e) => if n > 1 {
                    FallbackState::TryFallback { first_failure: e }
                } else {
                    FallbackState::Done { outcome: Err(e) }
                },
            },
            FallbackState::TryFallback { .. } => FallbackState::Done { outcome },
            FallbackState::Done { outcome: prior } => FallbackState::Done { outcome: prior },
        }
    }

    /// The final outcome, once the run is finished; nothing while an
    /// attempt is still wanted.
    pub fn finish(self) -> (r: Option<Result<T, E>>)
        ensures
            match r {
                Some(o) => self == (FallbackState::Done { outcome: o }),
                None => !(self is Done),
            },
    {
        match self {
            FallbackState::Done { outcome } => Some(outcome),
            _ => None,
        }
    }

    /// Replays a whole run from its attempt outcomes: the state after
    /// feeding each outcome in turn, starting before the primary attempt.
    /// A trace is refused if it records an attempt the policy never asked
    /// for.
    pub open spec fn spec_run(n: int, outcomes: Seq<Result<T, E>>) -> Option<FallbackState<T, E>>
        decreases outcomes.len(),
    {
        if outcomes.len() == 0 {
            Some(FallbackState::TryPrimary)
        } else {
            match Self::spec_run(n, outcomes.drop_last()) {
                Some(st) => if st.spec_next_endpoint() is Some {
                    Some(st.spec_step(n, outcomes.last()))
                } else {
                    None
                },
                None => None,
            }
        }
    }
}

/// Law: with a single configured endpoint, a transport failure of the one
/// attempt is the final outcome of the run, and the policy asks for no
/// other endpoint — a trace with any second attempt is not a run of the
/// policy.
pub proof fn lemma_single_endpoint_failure<T, E>(e: E, extra: Result<T, E>)
    ensures
        FallbackState::<T, E>::spec_run(1, seq![Err(e)]) == Some(
            (FallbackState::<T, E>::Done { outcome: Err(e) }),
        ),
        FallbackState::<T, E>::spec_run(1, seq![Err(e), extra]) is None,
{
    let one: Seq<Result<T, E>> = seq![Err(e)];
    let two: Seq<Result<T, E>> = seq![Err(e), extra];
    assert(one.drop_last() =~= Seq::<Result<T, E>>::empty());
    assert(two.drop_last() =~= one);
    assert(FallbackState::<T, E>::spec_run(1, Seq::empty()) == Some(
        FallbackState::<T, E>::TryPrimary,
    ));
    assert(FallbackState::<T, E>::spec_run(1, one) == Some(
        (FallbackState::<T, E>::Done { outcome: Err(e) }),
    ));
}

/// Law: with two configured endpoints, a transport failure of the primary
/// attempt followed by a delivered response from the fallback yields that
/// response, and transport failures of both attempts yield the second
/// failure, not the first.
pub proof fn lemma_two_endpoint_fallback<T, E>(e1: E, v: T, e2: E)
    ensures
        FallbackState::<T, E>::spec_run(2, seq![Err(e1), Ok(v)]) == Some(
            (FallbackState::<T, E>::Done { outcome: Ok(v) }),
        ),
        FallbackState::<T, E>::spec_run(2, seq![Err(e1), Err(e2)]) == Some(
            (FallbackState::<T, E>::Done { outcome: Err(e2) }),
        ),
{
    let ok_run: Seq<Result<T, E>> = seq![Err(e1), Ok(v)];
    let err_run: Seq<Result<T, E>> = seq![Err(e1), Err(e2)];
    let first: Seq<Result<T, E>> = seq![Err(e1)];
    assert(first.drop_last() =~= Seq::<Result<T, E>>::empty());
    assert(ok_run.drop_last() =~= first);
    assert(err_run.drop_last() =~= first);
    assert(FallbackState::<T, E>::spec_run(2, Seq::empty()) == Some(
        FallbackState::<T, E>::TryPrimary,
    ));
    assert(FallbackState::<T, E>::spec_run(2, first) == Some(
        (FallbackState::<T, E>::TryFallback { first_failure: e1 }),
    ));
}

/// Law: a delivered response from the primary attempt is final, however
/// many endpoints are configured: the run is done with that response after
/// the one attempt, the policy asks for no further endpoint, and a trace
/// with any second attempt is not a run of the policy.
pub proof fn lemma_primary_success_is_final<T, E>(n: int, v: T, extra: Result<T, E>)
    ensures
        FallbackState::<T, E>::spec_run(n, seq![Ok(v)]) == Some(
            (FallbackState::<T, E>::Done { outcome: Ok(v) }),
        ),
        (FallbackState::<T, E>::Done { outcome: Ok(v) }).spec_next_endpoint() is None,
        FallbackState::<T, E>::spec_run(n, seq![Ok(v), extra]) is None,
{
    let one: Seq<Result<T, E>> = seq![Ok(v)];
    let two: Seq<Result<T, E>> = seq![Ok(v), extra];
    assert(one.drop_last() =~= Seq::<Result<T, E>>::empty());
    assert(two.drop_last() =~= one);
    assert(FallbackState::<T, E>::spec_run(n, Seq::empty()) == Some(
        FallbackState::<T, E>::TryPrimary,
    ));
    assert(FallbackState::<T, E>::spec_run(n, one) == Some(
        (FallbackState::<T, E>::Done { outcome: Ok(v) }),
    ));
}

} // verus!
