use vstd::prelude::*;

verus! {

/// How often a download is tried and how long to wait between two tries.
#[derive(Debug, Clone, Copy, PartialEq, Eq, Structural)]
pub struct RetryPolicy {
    /// The number of attempts, the successful one included.
    pub max_attempts: u32,
    /// The pause before each new attempt, in milliseconds.
    pub delay_ms: u64,
}

impl RetryPolicy {
    /// The usual policy: three attempts, two seconds apart.
    pub fn standard() -> (r: RetryPolicy)
        ensures
            r.max_attempts == 3,
            r.delay_ms == 2000,
    {
        RetryPolicy { max_attempts: 3, delay_ms: 2000 }
    }

    /// A policy of `max_attempts` attempts, `delay_ms` milliseconds apart.
    pub fn new(max_attempts: u32, delay_ms: u64) -> (r: RetryPolicy)
        ensures
            r.max_attempts == max_attempts,
            r.delay_ms == delay_ms,
    {
        RetryPolicy { max_attempts, delay_ms }
    }
}

/// What a download worker does after an attempt.
#[derive(Debug, Clone, Copy, PartialEq, Eq, Structural)]
pub enum WorkerAction {
    /// The response is good: write its body to the task's file.
    Write,
    /// Wait this many milliseconds, then try again.
    RetryAfter(u64),
    /// The attempts are spent: skip the image.
    GiveUp,
}

/// Whether an HTTP status code reports success (the 2xx class).
pub open spec fn success_status(status: u16) -> bool {
    200 <= status < 300
}

/// Whether the answer to an attempt is a successful response; `None` stands
/// for a transport error or a timeout.
pub open spec fn attempt_succeeded(answer: Option<u16>) -> bool {
    answer is Some && success_status(answer->0)
}

/// The action after the attempt numbered `attempts_made` (counting from one)
/// got `answer`.
pub open spec fn action_after(policy: RetryPolicy, attempts_made: nat, answer: Option<u16>) -> WorkerAction {
    if attempt_succeeded(answer) {
        WorkerAction::Write
    } else if attempts_made < policy.max_attempts {
        WorkerAction::RetryAfter(policy.delay_ms)
    } else {
        WorkerAction::GiveUp
    }
}

/// The last action, and the number of attempts made, of a worker that has
/// already made `done` attempts when the transport answers its next attempts
/// with `answers` in turn.
pub open spec fn run_answers(policy: RetryPolicy, done: nat, answers: Seq<Option<u16>>) -> (
    WorkerAction,
    nat,
)
    decreases answers.len(),
{
    if answers.len() == 0 {
        (WorkerAction::GiveUp, done)
    } else {
        let a = action_after(policy, done + 1, answers[0]);
        if a is RetryAfter {
            run_answers(policy, done + 1, answers.drop_first())
        } else {
            (a, done + 1)
        }
    }
}

/// Whether an HTTP status code reports success.
pub fn is_success_status(status: u16) -> (r: bool)
    ensures
        r == success_status(status),
{
    200 <= status && status < 300
}

/// The retry state of the download of one image.
#[derive(Debug)]
pub struct FetchWorker {
    pub policy: RetryPolicy,
    /// The attempts made so far.
    pub attempts: u32,
    /// Whether the worker has written the image or given up.
    pub finished: bool,
}

impl FetchWorker {
    /// Whether another attempt is due.
    pub open spec fn may_attempt(&self) -> bool {
        !self.finished && self.attempts < self.policy.max_attempts
    }

    /// A worker that has made no attempt yet.
    pub fn new(policy: RetryPolicy) -> (r: FetchWorker)
        ensures
            r.policy == policy,
            r.attempts == 0,
            !r.finished,
    {
        FetchWorker { policy, attempts: 0, finished: false }
    }

    /// Whether another attempt is due.
    pub fn can_attempt(&self) -> (r: bool)
        ensures
            r == self.may_attempt(),
    {
        !self.finished && self.attempts < self.policy.max_attempts
    }

    /// Records the answer to an attempt and says what to do next.
    pub fn record_attempt(&mut self, answer: Option<u16>) -> (r: WorkerAction)
        requires
            old(self).may_attempt(),
        ensures
            r == action_after(old(self).policy, (old(self).attempts + 1) as nat, answer),
            final(self).policy == old(self).policy,
            final(self).attempts == old(self).attempts + 1,
            final(self).finished == !(r is RetryAfter),
    {
        self.attempts = self.attempts + 1;
        let succeeded = match answer {
            Some(status) => is_success_status(status),
            None => false,
        };
        let r = if succeeded {
            WorkerAction::Write
        } else if self.attempts < self.policy.max_attempts {
            WorkerAction::RetryAfter(self.policy.delay_ms)
        } else {
            WorkerAction::GiveUp
        };
        self.finished = !matches!(r, WorkerAction::RetryAfter(_));
        r
    }
}

proof fn lemma_run_answers_from(policy: RetryPolicy, done: nat, answers: Seq<Option<u16>>)
    requires
        done < policy.max_attempts,
        done + answers.len() >= policy.max_attempts,
    ensures
        (run_answers(policy, done, answers).0 == WorkerAction::Write) == (exists|i: int|
            0 <= i < policy.max_attempts - done && #[trigger] attempt_succeeded(answers[i])),
        run_answers(policy, done, answers).0 == WorkerAction::Write || run_answers(
            policy,
            done,
            answers,
        ).0 == WorkerAction::GiveUp,
        done + 1 <= run_answers(policy, done, answers).1 <= policy.max_attempts,
        run_answers(policy, done, answers).0 == WorkerAction::GiveUp ==> run_answers(
            policy,
            done,
            answers,
        ).1 == policy.max_attempts,
        run_answers(policy, done, answers).0 == WorkerAction::Write ==> attempt_succeeded(
            answers[run_answers(policy, done, answers).1 - done - 1],
        ),
        forall|i: int|
            0 <= i < run_answers(policy, done, answers).1 - done - 1 ==> !#[trigger] attempt_succeeded(
                answers[i],
            ),
    decreases answers.len(),
{
    if attempt_succeeded(answers[0]) {
    } else if done + 1 < policy.max_attempts {
        let rest = answers.drop_first();
        lemma_run_answers_from(policy, done + 1, rest);
        assert forall|i: int| 1 <= i < answers.len() implies answers[i] == rest[i - 1] by {}
        if run_answers(policy, done + 1, rest).0 == WorkerAction::Write {
            let i = run_answers(policy, done + 1, rest).1 - done - 2;
            assert(attempt_succeeded(answers[i + 1]));
        }
        if exists|i: int| 0 <= i < policy.max_attempts - done && #[trigger] attempt_succeeded(answers[i]) {
            let i = choose|i: int| 0 <= i < policy.max_attempts - done && #[trigger] attempt_succeeded(answers[i]);
            assert(attempt_succeeded(rest[i - 1]));
        }
        assert forall|i: int|
            0 <= i < run_answers(policy, done, answers).1 - done - 1 implies !#[trigger] attempt_succeeded(
                answers[i],
            ) by {
            if i > 0 {
                assert(answers[i] == rest[i - 1]);
            }
        }
    } else {
        assert forall|i: int| 0 <= i < policy.max_attempts - done implies !#[trigger] attempt_succeeded(
            answers[i],
        ) by {
            assert(i == 0);
        }
    }
}

/// The retry budget counts the successful attempt: a worker with a fresh
/// policy writes its image exactly when one of its first `max_attempts`
/// attempts gets a successful response, and then after the first of them;
/// otherwise it gives up after exactly `max_attempts` attempts.
pub proof fn lemma_retry_budget(policy: RetryPolicy, answers: Seq<Option<u16>>)
    requires
        policy.max_attempts >= 1,
        answers.len() >= policy.max_attempts,
    ensures
        (run_answers(policy, 0, answers).0 == WorkerAction::Write) == (exists|i: int|
            0 <= i < policy.max_attempts && #[trigger] attempt_succeeded(answers[i])),
        run_answers(policy, 0, answers).0 == WorkerAction::Write ==> {
            let n = run_answers(policy, 0, answers).1;
            &&& 1 <= n <= policy.max_attempts
            &&& attempt_succeeded(answers[n - 1])
            &&& forall|i: int| 0 <= i < n - 1 ==> !#[trigger] attempt_succeeded(answers[i])
        },
        run_answers(policy, 0, answers).0 != WorkerAction::Write ==> run_answers(
            policy,
            0,
            answers,
        ) == (WorkerAction::GiveUp, policy.max_attempts as nat),
{
    lemma_run_answers_from(policy, 0, answers);
}

} // verus!
