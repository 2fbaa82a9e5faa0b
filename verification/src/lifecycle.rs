//! The lifecycle state machine that guards every operation of a manager.

use vstd::prelude::*;
use vstd::string::StringExecFns;

verus! {

/// Coarse-grained phase of a manager instance.
#[derive(Debug, Clone, Copy, PartialEq, Eq, Structural)]
pub enum ThreadState {
    Uninitialized,
    Initializing,
    Initialized,
    ShuttingDown,
    Shutdown,
    Error,
}

impl ThreadState {
    /// The lower-case label of the state.
    pub open spec fn label(self) -> Seq<char> {
        match self {
            ThreadState::Uninitialized => "uninitialized"@,
            ThreadState::Initializing => "initializing"@,
            ThreadState::Initialized => "initialized"@,
            ThreadState::ShuttingDown => "shutting_down"@,
            ThreadState::Shutdown => "shutdown"@,
            ThreadState::Error => "error"@,
        }
    }

    /// Renders the state as its lower-case label.
    pub fn name(&self) -> (text: String)
        ensures
            text@ == self.label(),
    {
        match self {
            ThreadState::Uninitialized => "uninitialized".to_owned(),
            ThreadState::Initializing => "initializing".to_owned(),
            ThreadState::Initialized => "initialized".to_owned(),
            ThreadState::ShuttingDown => "shutting_down".to_owned(),
            ThreadState::Shutdown => "shutdown".to_owned(),
            ThreadState::Error => "error".to_owned(),
        }
    }
}

/// Message reported when an operation needs an initialized manager and the
/// manager was never initialized.
pub open spec fn not_initialized_message() -> Seq<char> {
    "Manager not initialized"@
}

/// Message reported when the manager has been shut down.
pub open spec fn disposed_message() -> Seq<char> {
    "Manager has been disposed"@
}

/// Message reported when the manager sits in the error state.
pub open spec fn in_error_message() -> Seq<char> {
    "Manager is in error state"@
}

/// Why a state does not admit operations, if it does not.
pub open spec fn admission_failure(state: ThreadState) -> Option<Seq<char>> {
    match state {
        ThreadState::Uninitialized => Some(not_initialized_message()),
        ThreadState::Shutdown => Some(disposed_message()),
        ThreadState::Error => Some(in_error_message()),
        _ => None,
    }
}

/// Why a state counts as disposed, if it does.
pub open spec fn disposal_failure(state: ThreadState) -> Option<Seq<char>> {
    if state == ThreadState::Shutdown {
        Some(disposed_message())
    } else {
        None
    }
}

/// The error counter after one more error; it wraps at the width of `u64`.
pub open spec fn next_error_count(count: u64) -> u64 {
    if count == u64::MAX {
        0
    } else {
        (count + 1) as u64
    }
}

/// The steps that look at the state without being told to change it: the
/// two checks, and the clearing of the error slot.
pub enum GuardedStep {
    EnsureInitialized,
    EnsureNotDisposed,
    ClearError,
}

/// What a `StateController` holds, as mathematical values.
pub struct LifecycleView {
    pub state: ThreadState,
    pub last_error: Seq<char>,
    pub error_count: u64,
}

impl LifecycleView {
    /// A controller that has seen nothing yet.
    pub open spec fn initial() -> LifecycleView {
        LifecycleView {
            state: ThreadState::Uninitialized,
            last_error: Seq::<char>::empty(),
            error_count: 0,
        }
    }

    /// The state is overwritten; the error slot is untouched.
    pub open spec fn with_state(self, state: ThreadState) -> LifecycleView {
        LifecycleView { state, ..self }
    }

    /// The message is recorded, the counter advances, the state becomes `Error`.
    pub open spec fn record_error(self, message: Seq<char>) -> LifecycleView {
        LifecycleView {
            state: ThreadState::Error,
            last_error: message,
            error_count: next_error_count(self.error_count),
        }
    }

    /// The message is wiped; `Error` recovers to `Initialized`, any other
    /// state stays.
    pub open spec fn clear_error(self) -> LifecycleView {
        LifecycleView {
            state: if self.state == ThreadState::Error {
                ThreadState::Initialized
            } else {
                self.state
            },
            last_error: Seq::<char>::empty(),
            error_count: self.error_count,
        }
    }

    /// The message is recorded and the counter advances; the state stays.
    pub open spec fn note_refusal(self, message: Seq<char>) -> LifecycleView {
        LifecycleView {
            state: self.state,
            last_error: message,
            error_count: next_error_count(self.error_count),
        }
    }

    /// The controller after a check that fails with `failure`, or passes.
    /// A refusal goes to the caller: it leaves its message and advances the
    /// counter, and it does not move the state.
    pub open spec fn after_check(self, failure: Option<Seq<char>>) -> LifecycleView {
        match failure {
            Some(message) => self.note_refusal(message),
            None => self,
        }
    }

    /// The controller after one step that is guarded by the state.
    pub open spec fn after_step(self, step: GuardedStep) -> LifecycleView {
        match step {
            GuardedStep::EnsureInitialized => self.after_check(admission_failure(self.state)),
            GuardedStep::EnsureNotDisposed => self.after_check(disposal_failure(self.state)),
            GuardedStep::ClearError => self.clear_error(),
        }
    }

    /// The controller after every step of `steps`, first to last.
    pub open spec fn after_steps(self, steps: Seq<GuardedStep>) -> LifecycleView
        decreases steps.len(),
    {
        if steps.len() == 0 {
            self
        } else {
            self.after_steps(steps.drop_last()).after_step(steps.last())
        }
    }
}

/// The message recorded for a subscriber that failed with `reason`.
pub open spec fn handler_failure_message(reason: Seq<char>) -> Seq<char> {
    "Error in event handler: "@ + reason
}

/// How many of the outcomes are failures.
pub open spec fn failures(outcomes: Seq<Result<(), String>>) -> nat
    decreases outcomes.len(),
{
    if outcomes.len() == 0 {
        0
    } else {
        failures(outcomes.drop_last()) + if outcomes.last() is Err {
            1nat
        } else {
            0nat
        }
    }
}

/// Outcomes without a failure count none.
pub proof fn lemma_no_failures(outcomes: Seq<Result<(), String>>)
    requires
        forall|i: int| 0 <= i < outcomes.len() ==> outcomes[i] is Ok,
    ensures
        failures(outcomes) == 0,
    decreases outcomes.len(),
{
    if outcomes.len() > 0 {
        lemma_no_failures(outcomes.drop_last());
    }
}

/// Outcomes with a failure at one place and nowhere else count one.
pub proof fn lemma_single_failure(outcomes: Seq<Result<(), String>>, at: int)
    requires
        0 <= at < outcomes.len(),
        outcomes[at] is Err,
        forall|i: int| 0 <= i < outcomes.len() && i != at ==> outcomes[i] is Ok,
    ensures
        failures(outcomes) == 1,
    decreases outcomes.len(),
{
    if at == outcomes.len() - 1 {
        lemma_no_failures(outcomes.drop_last());
    } else {
        lemma_single_failure(outcomes.drop_last(), at);
    }
}

impl LifecycleView {
    /// The controller after the outcomes of a dispatch were recorded, first
    /// to last: every failure is recorded as an error, a success leaves no
    /// trace.
    pub open spec fn after_outcomes(self, outcomes: Seq<Result<(), String>>) -> LifecycleView
        decreases outcomes.len(),
    {
        if outcomes.len() == 0 {
            self
        } else {
            let before = self.after_outcomes(outcomes.drop_last());
            match outcomes.last() {
                Ok(_) => before,
                Err(reason) => before.record_error(handler_failure_message(reason@)),
            }
        }
    }

    /// A dispatch without failures leaves the controller as it was.
    pub proof fn lemma_successes_leave_no_trace(self, outcomes: Seq<Result<(), String>>)
        requires
            forall|i: int| 0 <= i < outcomes.len() ==> outcomes[i] is Ok,
        ensures
            self.after_outcomes(outcomes) == self,
        decreases outcomes.len(),
    {
        if outcomes.len() > 0 {
            self.lemma_successes_leave_no_trace(outcomes.drop_last());
        }
    }

    /// Every failure of a dispatch advances the error counter by one: the
    /// counter ends that many higher where that is within the width of
    /// `u64`, at which it wraps. One failure is enough to leave the
    /// controller in `Error`, and without a failure nothing changes.
    pub proof fn lemma_failures_are_counted(self, outcomes: Seq<Result<(), String>>)
        ensures
            self.after_outcomes(outcomes).error_count == (self.error_count + failures(outcomes))
                % 0x1_0000_0000_0000_0000,
            self.error_count + failures(outcomes) <= u64::MAX ==> self.after_outcomes(
                outcomes,
            ).error_count == self.error_count + failures(outcomes),
            failures(outcomes) > 0 ==> self.after_outcomes(outcomes).state == ThreadState::Error,
            failures(outcomes) == 0 ==> self.after_outcomes(outcomes) == self,
        decreases outcomes.len(),
    {
        if outcomes.len() > 0 {
            self.lemma_failures_are_counted(outcomes.drop_last());
        }
    }

    /// A check never moves the state, whether it passes or refuses.
    pub proof fn lemma_checks_keep_the_state(self)
        ensures
            self.after_check(admission_failure(self.state)).state == self.state,
            self.after_check(disposal_failure(self.state)).state == self.state,
    {
    }

    /// Checks and clearings of the error slot, in any number and order,
    /// move no state but `Error`: a controller that is not in `Error` is in
    /// the same state after them.
    pub proof fn lemma_guarded_steps_keep_the_state(self, steps: Seq<GuardedStep>)
        requires
            self.state != ThreadState::Error,
        ensures
            self.after_steps(steps).state == self.state,
        decreases steps.len(),
    {
        if steps.len() > 0 {
            self.lemma_guarded_steps_keep_the_state(steps.drop_last());
        }
    }

    /// A controller that was shut down stays shut down through checks and
    /// clearings of the error slot, in any number and order, and both checks
    /// refuse it as disposed after them as before. So does a controller that
    /// was never initialized stay uninitialized.
    pub proof fn lemma_shutdown_is_settled(self, steps: Seq<GuardedStep>)
        ensures
            self.state == ThreadState::Shutdown ==> {
                &&& self.after_steps(steps).state == ThreadState::Shutdown
                &&& admission_failure(self.after_steps(steps).state) == Some(disposed_message())
                &&& disposal_failure(self.after_steps(steps).state) == Some(disposed_message())
            },
            self.state == ThreadState::Uninitialized ==> {
                &&& self.after_steps(steps).state == ThreadState::Uninitialized
                &&& admission_failure(self.after_steps(steps).state) == Some(
                    not_initialized_message(),
                )
            },
    {
        if self.state != ThreadState::Error {
            self.lemma_guarded_steps_keep_the_state(steps);
        }
    }

    /// Operations are refused until the state is set to `Initialized`,
    /// admitted from then on, and refused as disposed once it is set to
    /// `Shutdown`.
    pub proof fn lemma_gate_follows_state(self)
        ensures
            admission_failure(LifecycleView::initial().state) == Some(not_initialized_message()),
            admission_failure(self.with_state(ThreadState::Initialized).state) is None,
            admission_failure(self.with_state(ThreadState::Shutdown).state) == Some(
                disposed_message(),
            ),
    {
    }

    /// The error state is never a dead end: clearing the error returns the
    /// controller to `Initialized`, where operations are admitted.
    pub proof fn lemma_error_is_recoverable(self, message: Seq<char>)
        ensures
            self.record_error(message).clear_error().state == ThreadState::Initialized,
            admission_failure(self.record_error(message).clear_error().state) is None,
    {
    }
}

/// What one poll of a bounded wait decides.
#[derive(Debug, Clone, Copy, PartialEq, Eq, Structural)]
pub enum WaitStep {
    /// The target state was observed before the deadline.
    Reached,
    /// The deadline passed; the wait ends without the target.
    TimedOut,
    /// Neither: sleep for the polling interval and poll again.
    Retry,
}

/// Nanoseconds between two polls of a bounded wait.
pub const POLL_INTERVAL_NANOS: u64 = 10_000_000;

/// The decision of one poll: the deadline is looked at first, so a wait
/// with an elapsed deadline never reports the target.
pub open spec fn wait_decision(
    current: ThreadState,
    target: ThreadState,
    elapsed: u64,
    timeout: u64,
) -> WaitStep {
    if elapsed >= timeout {
        WaitStep::TimedOut
    } else if current == target {
        WaitStep::Reached
    } else {
        WaitStep::Retry
    }
}

/// Whether `result` is what a check returns that fails with `failure`, or
/// passes if there is none.
pub open spec fn check_outcome(result: Result<(), String>, failure: Option<Seq<char>>) -> bool {
    match (result, failure) {
        (Ok(_), None) => true,
        (Err(text), Some(message)) => text@ == message,
        _ => false,
    }
}

/// Guarded lifecycle state with the last error message and an error counter.
pub struct StateController {
    state: ThreadState,
    last_error: String,
    error_count: u64,
}

impl View for StateController {
    type V = LifecycleView;

    closed spec fn view(&self) -> LifecycleView {
        LifecycleView {
            state: self.state,
            last_error: self.last_error@,
            error_count: self.error_count,
        }
    }
}

impl StateController {
    /// A controller in `Uninitialized` with no error recorded.
    pub fn new() -> (controller: StateController)
        ensures
            controller@ == LifecycleView::initial(),
    {
        StateController { state: ThreadState::Uninitialized, last_error: String::new(), error_count: 0 }
    }

    /// The current state.
    pub fn get_state(&self) -> (state: ThreadState)
        ensures
            state == self@.state,
    {
        self.state
    }

    /// Overwrites the state.
    pub fn set_state(&mut self, state: ThreadState)
        ensures
            final(self)@ == old(self)@.with_state(state),
    {
        self.state = state;
    }

    /// Records `error`, advances the counter and forces the state to `Error`.
    pub fn set_error(&mut self, error: String)
        ensures
            final(self)@ == old(self)@.record_error(error@),
    {
        self.last_error = error;
        self.error_count = if self.error_count == u64::MAX {
            0
        } else {
            self.error_count + 1
        };
        self.state = ThreadState::Error;
    }

    /// Wipes the message and, from `Error` only, returns to `Initialized`.
    pub fn clear_error(&mut self)
        ensures
            final(self)@ == old(self)@.clear_error(),
    {
        self.last_error = String::new();
        if self.state == ThreadState::Error {
            self.state = ThreadState::Initialized;
        }
    }

    /// The last recorded message, empty if none.
    pub fn get_last_error(&self) -> (message: String)
        ensures
            message@ == self@.last_error,
    {
        self.last_error.clone()
    }

    /// How many errors were recorded.
    pub fn get_error_count(&self) -> (count: u64)
        ensures
            count == self@.error_count,
    {
        self.error_count
    }

    /// Whether the state is `Initialized`.
    pub fn is_initialized(&self) -> (yes: bool)
        ensures
            yes == (self@.state == ThreadState::Initialized),
    {
        self.state == ThreadState::Initialized
    }

    /// Whether the state is `Shutdown`.
    pub fn is_disposed(&self) -> (yes: bool)
        ensures
            yes == (self@.state == ThreadState::Shutdown),
    {
        self.state == ThreadState::Shutdown
    }

    /// Leaves the message of a refusal and advances the counter; the state
    /// stays.
    fn note_refusal(&mut self, message: String)
        ensures
            final(self)@ == old(self)@.note_refusal(message@),
    {
        self.last_error = message;
        self.error_count = if self.error_count == u64::MAX {
            0
        } else {
            self.error_count + 1
        };
    }

    /// Admits an operation unless the state is `Uninitialized`, `Shutdown`
    /// or `Error`. A refusal is returned to the caller; it leaves its
    /// message and advances the error counter. The state is never moved.
    pub fn ensure_initialized(&mut self) -> (result: Result<(), String>)
        ensures
            check_outcome(result, admission_failure(old(self)@.state)),
            final(self)@ == old(self)@.after_check(admission_failure(old(self)@.state)),
            final(self)@.state == old(self)@.state,
    {
        match self.state {
            ThreadState::Uninitialized => {
                self.note_refusal("Manager not initialized".to_owned());
                Err(self.get_last_error())
            },
            ThreadState::Shutdown => {
                self.note_refusal("Manager has been disposed".to_owned());
                Err(self.get_last_error())
            },
            ThreadState::Error => {
                self.note_refusal("Manager is in error state".to_owned());
                Err(self.get_last_error())
            },
            _ => Ok(()),
        }
    }

    /// Admits an operation unless the state is `Shutdown`. A refusal is
    /// returned to the caller; it leaves its message and advances the error
    /// counter. The state is never moved.
    pub fn ensure_not_disposed(&mut self) -> (result: Result<(), String>)
        ensures
            check_outcome(result, disposal_failure(old(self)@.state)),
            final(self)@ == old(self)@.after_check(disposal_failure(old(self)@.state)),
            final(self)@.state == old(self)@.state,
    {
        if self.state == ThreadState::Shutdown {
            self.note_refusal("Manager has been disposed".to_owned());
            Err(self.get_last_error())
        } else {
            Ok(())
        }
    }

    /// Records the outcomes of a dispatch, first to last: each failure as
    /// an error with the subscriber's reason in its message.
    pub fn record_outcomes(&mut self, outcomes: &Vec<Result<(), String>>)
        ensures
            final(self)@ == old(self)@.after_outcomes(outcomes@),
    {
        let mut i: usize = 0;
        while i < outcomes.len()
            invariant
                i <= outcomes.len(),
                self@ == old(self)@.after_outcomes(outcomes@.take(i as int)),
            decreases outcomes.len() - i,
        {
            proof {
                assert(outcomes@.take(i + 1).drop_last() == outcomes@.take(i as int));
            }
            match &outcomes[i] {
                Ok(_) => {},
                Err(reason) => {
                    let message = String::from_str("Error in event handler: ").concat(
                        reason.as_str(),
                    );
                    self.set_error(message);
                },
            }
            i += 1;
        }
        proof {
            assert(outcomes@.take(outcomes@.len() as int) == outcomes@);
        }
    }

    /// One poll of a bounded wait for `target`, `elapsed` nanoseconds into a
    /// wait that may last `timeout` nanoseconds.
    pub fn poll_for_state(&self, target: ThreadState, elapsed: u64, timeout: u64) -> (step: WaitStep)
        ensures
            step == wait_decision(self@.state, target, elapsed, timeout),
    {
        if elapsed >= timeout {
            WaitStep::TimedOut
        } else if self.state == target {
            WaitStep::Reached
        } else {
            WaitStep::Retry
        }
    }
}

} // verus!
