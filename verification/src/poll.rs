//! What an AIO operation's future does each time it is polled.
//!
//! A poll first asks the reactor whether the operation has completed.  If it
//! has not, and the operation has not been handed to the kernel yet, the
//! future submits it; if it has completed, the future collects its result
//! with `aio_return`.  `next_action` takes each observation in turn and says
//! what to do next, until the poll settles as pending or ready.
use vstd::prelude::*;

verus! {

/// What the reactor says about an operation when it is polled.
#[derive(Clone, Copy, Debug, PartialEq, Eq, Structural)]
pub enum Readiness {
    /// The operation has not completed (or has not been started).
    NotReady,
    /// The operation has completed, successfully or not.
    Ready,
    /// The reactor itself failed (it has been shut down); this says nothing
    /// of the operation.
    ReactorFailed,
}

/// One observation made while polling an operation.  Errors are raw OS error
/// numbers (`errno`).
pub enum PollEvent<T> {
    /// The reactor's readiness, and whether the control block has in-kernel
    /// state.
    Observed { readiness: Readiness, in_progress: bool },
    /// The result of submitting the operation to the kernel.
    Submitted(Result<(), i32>),
    /// The result of `aio_return` on the completed operation.
    Returned(Result<T, i32>),
}

/// What the future does next.
#[derive(Debug)]
pub enum PollAction<T> {
    /// Submit the operation to the kernel, then report `Submitted`.
    Submit,
    /// Collect the result with `aio_return`, then report `Returned`.
    CollectReturn,
    /// Return `Poll::Pending`.
    Pending,
    /// Return `Poll::Ready` with the reactor's own error.
    ReactorError,
    /// Return `Poll::Ready` with this value, or with the OS error of this
    /// number.
    Resolve(Result<T, i32>),
}

/// The decision table of a poll.
pub open spec fn poll_transition<T>(event: PollEvent<T>) -> PollAction<T> {
    match event {
        PollEvent::Observed { readiness, in_progress } => match readiness {
            Readiness::NotReady => if in_progress {
                PollAction::Pending
            } else {
                PollAction::Submit
            },
            Readiness::Ready => PollAction::CollectReturn,
            Readiness::ReactorFailed => PollAction::ReactorError,
        },
        PollEvent::Submitted(r) => match r {
            Ok(_) => PollAction::Pending,
            Err(code) => PollAction::Resolve(Err(code)),
        },
        PollEvent::Returned(r) => PollAction::Resolve(r),
    }
}

/// Decides what the future does after `event`.
pub fn next_action<T>(event: PollEvent<T>) -> (action: PollAction<T>)
    ensures
        action == poll_transition(event),
{
    match event {
        PollEvent::Observed { readiness, in_progress } => match readiness {
            Readiness::NotReady => {
                if in_progress {
                    PollAction::Pending
                } else {
                    PollAction::Submit
                }
            },
            Readiness::Ready => PollAction::CollectReturn,
            Readiness::ReactorFailed => PollAction::ReactorError,
        },
        PollEvent::Submitted(r) => match r {
            Ok(_) => PollAction::Pending,
            Err(code) => PollAction::Resolve(Err(code)),
        },
        PollEvent::Returned(r) => PollAction::Resolve(r),
    }
}

/// Whether an action ends the poll (the future returns to its caller).
pub open spec fn settles<T>(action: PollAction<T>) -> bool {
    match action {
        PollAction::Submit | PollAction::CollectReturn => false,
        _ => true,
    }
}

/// What the outside work of one poll yields, each result used only if the
/// future asks for it: the reactor's readiness, then the result of
/// submitting and the result of `aio_return`.
pub struct PollRound<T> {
    pub readiness: Readiness,
    pub submit_result: Result<(), i32>,
    pub return_result: Result<T, i32>,
}

/// The action with which one poll settles, given whether the control block
/// had in-kernel state when it began.
pub open spec fn round_action<T>(in_progress: bool, round: PollRound<T>) -> PollAction<T> {
    let first = poll_transition(PollEvent::Observed { readiness: round.readiness, in_progress });
    match first {
        PollAction::Submit => poll_transition(PollEvent::<T>::Submitted(round.submit_result)),
        PollAction::CollectReturn => poll_transition(PollEvent::Returned(round.return_result)),
        _ => first,
    }
}

/// Whether one poll submits the operation.
pub open spec fn round_submits<T>(in_progress: bool, round: PollRound<T>) -> bool {
    poll_transition(PollEvent::<T>::Observed { readiness: round.readiness, in_progress })
        is Submit
}

/// Whether the control block has in-kernel state after one poll: a
/// successful submission gives it some, `aio_return` takes it away (as the
/// AIO control block records it), and nothing else changes it.
pub open spec fn in_progress_after<T>(in_progress: bool, round: PollRound<T>) -> bool {
    match poll_transition(PollEvent::<T>::Observed { readiness: round.readiness, in_progress }) {
        PollAction::Submit => round.submit_result is Ok,
        PollAction::CollectReturn => false,
        _ => in_progress,
    }
}

/// Whether the control block has in-kernel state when poll `i` of `rounds`
/// begins; a fresh operation has none.
pub open spec fn in_progress_at<T>(rounds: Seq<PollRound<T>>, i: int) -> bool
    decreases i,
{
    if i <= 0 {
        false
    } else {
        in_progress_after(in_progress_at(rounds, i - 1), rounds[i - 1])
    }
}

/// The number of the first `n` polls of `rounds` that submit the operation.
pub open spec fn submissions<T>(rounds: Seq<PollRound<T>>, n: int) -> nat
    decreases n,
{
    if n <= 0 {
        0
    } else {
        submissions(rounds, n - 1) + if round_submits(in_progress_at(rounds, n - 1), rounds[n - 1]) {
            1nat
        } else {
            0nat
        }
    }
}

/// Whether the first `n` polls of `rounds` all returned `Poll::Pending`.
pub open spec fn all_pending<T>(rounds: Seq<PollRound<T>>, n: int) -> bool {
    forall|i: int| 0 <= i < n ==> #[trigger] round_action(in_progress_at(rounds, i), rounds[i]) is Pending
}

/// A poll submits the operation only when the reactor reports it incomplete
/// and the control block has no in-kernel state; in particular an operation
/// that is in progress is never submitted again.
pub proof fn lemma_submit_only_when_idle<T>(event: PollEvent<T>)
    ensures
        (poll_transition(event) is Submit) == (event == (PollEvent::<T>::Observed {
            readiness: Readiness::NotReady,
            in_progress: false,
        })),
{
}

/// A future resolves successfully only with the value that `aio_return`
/// gave, and an OS error it reports is the error number that submission or
/// `aio_return` gave, unchanged.
pub proof fn lemma_resolution_comes_from_the_kernel<T>(event: PollEvent<T>, value: T, code: i32)
    ensures
        (poll_transition(event) == PollAction::Resolve(Ok::<T, i32>(value))) == (event
            == PollEvent::Returned(Ok::<T, i32>(value))),
        (poll_transition(event) == PollAction::<T>::Resolve(Err(code))) == (event
            == PollEvent::<T>::Submitted(Err(code)) || event == PollEvent::<T>::Returned(Err(code))),
{
}

/// A poll collects the operation's result with `aio_return` exactly when the
/// reactor reports the operation complete, whatever its output type and
/// whatever the control block says of in-kernel state; no other observation
/// and no submission or return result leads to `aio_return`.
pub proof fn lemma_collect_exactly_when_complete<T>(event: PollEvent<T>)
    ensures
        (poll_transition(event) is CollectReturn) == (event is Observed && (event
            matches PollEvent::Observed { readiness, .. } && readiness == Readiness::Ready)),
{
}

/// A poll returns `Poll::Pending` exactly when the operation is known to be
/// in the kernel and unfinished: the reactor reports it incomplete while the
/// control block has in-kernel state, or it has just been submitted
/// successfully.
pub proof fn lemma_pending_exactly_when_in_flight<T>(event: PollEvent<T>)
    ensures
        (poll_transition(event) is Pending) == (event == (PollEvent::<T>::Observed {
            readiness: Readiness::NotReady,
            in_progress: true,
        }) || event == PollEvent::<T>::Submitted(Ok(()))),
{
    if let PollEvent::Submitted(r) = event {
        if let Ok(u) = r {
            assert(u == ());
            assert(r == Ok::<(), i32>(()));
        }
    }
}

/// A reactor error is reported exactly when the reactor itself failed; a
/// submission, a returned result or a readiness report never turns into one.
pub proof fn lemma_reactor_error_exactly_when_reactor_failed<T>(event: PollEvent<T>)
    ensures
        (poll_transition(event) is ReactorError) == (event is Observed && (event
            matches PollEvent::Observed { readiness, .. } && readiness
            == Readiness::ReactorFailed)),
{
}

/// A failure of the reactor is reported as such, whatever the state of the
/// operation, and nothing is submitted or collected for it.
pub proof fn lemma_reactor_failure_is_forwarded<T>(in_progress: bool)
    ensures
        poll_transition(
            PollEvent::<T>::Observed { readiness: Readiness::ReactorFailed, in_progress },
        ) is ReactorError,
{
}

/// Every poll settles after at most one call into the AIO control block: the
/// action after the reactor's answer either settles, or is one submission or
/// one `aio_return` whose result settles it.
pub proof fn lemma_poll_settles<T>(
    readiness: Readiness,
    in_progress: bool,
    submitted: Result<(), i32>,
    returned: Result<T, i32>,
)
    ensures
        ({
            let first = poll_transition(PollEvent::<T>::Observed { readiness, in_progress });
            &&& first is Submit ==> settles(poll_transition(PollEvent::<T>::Submitted(submitted)))
            &&& first is CollectReturn ==> settles(poll_transition(PollEvent::Returned(returned)))
        }),
        settles(round_action(in_progress, (PollRound { readiness, submit_result: submitted, return_result: returned }))),
{
}

/// While its polls return `Poll::Pending`, an operation has been submitted
/// once if it has in-kernel state, and never otherwise.
proof fn lemma_pending_polls_track_submission<T>(rounds: Seq<PollRound<T>>, n: int)
    requires
        0 <= n <= rounds.len(),
        all_pending(rounds, n),
    ensures
        submissions(rounds, n) == (if in_progress_at(rounds, n) { 1nat } else { 0nat }),
    decreases n,
{
    if n > 0 {
        assert(all_pending(rounds, n - 1)) by {
            assert forall|i: int| 0 <= i < n - 1 implies #[trigger] round_action(
                in_progress_at(rounds, i),
                rounds[i],
            ) is Pending by {
                assert(round_action(in_progress_at(rounds, i), rounds[i]) is Pending);
            }
        }
        lemma_pending_polls_track_submission(rounds, n - 1);
        assert(round_action(in_progress_at(rounds, n - 1), rounds[n - 1]) is Pending);
    }
}

/// Until its future resolves, an operation is handed to the kernel at most
/// once: over any run of polls of a fresh operation in which every poll but
/// the last returned `Poll::Pending`, at most one poll submits it.
pub proof fn lemma_submitted_at_most_once<T>(rounds: Seq<PollRound<T>>)
    requires
        all_pending(rounds, rounds.len() - 1),
    ensures
        submissions(rounds, rounds.len() as int) <= 1,
{
    let n = rounds.len() as int;
    if n > 0 {
        lemma_pending_polls_track_submission(rounds, n - 1);
    }
}

} // verus!
