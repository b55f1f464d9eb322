//! Logical completion of a submission, and ownership until it retires.
//!
//! A completion is shared between the engine that reaps it and the consumers that query or wait
//! it. Its outcome is decided once, by the submission's own fence, and never changes again; the
//! resources of the submission can be extracted only after that.

use crate::error::{lost, Interrupted, VkResult};
use crate::names::Counter;
use crate::timing::{count, timing_counted, Timing};
use vstd::prelude::*;

verus! {

/// What is known of a submission's fence.
#[derive(Clone, Copy, Debug, PartialEq, Eq, Structural)]
pub enum Outcome {
    /// Not reached yet.
    Pending,
    /// Reached.
    Complete,
    /// The device was lost: access is retired, pixels are not valid.
    DeviceLost,
}

/// A submission's outcome and what it still owns.
#[derive(Debug)]
pub struct CompletionState<T> {
    pub outcome: Outcome,
    pub owned: Option<T>,
}

/// The outcome after the fence answered `reply`.
pub open spec fn outcome_after(outcome: Outcome, reply: Result<bool, VkResult>) -> Outcome {
    if outcome != Outcome::Pending {
        outcome
    } else if reply == Ok::<bool, VkResult>(true) {
        Outcome::Complete
    } else if reply == Err::<bool, VkResult>(lost()) {
        Outcome::DeviceLost
    } else {
        Outcome::Pending
    }
}

/// What is reported for that answer: the answer itself while pending, the frozen outcome after.
pub open spec fn reported(outcome: Outcome, reply: Result<bool, VkResult>) -> Result<
    bool,
    VkResult,
> {
    match outcome {
        Outcome::Pending => reply,
        Outcome::Complete => Ok(true),
        Outcome::DeviceLost => Err(lost()),
    }
}

/// Whether a reply says that access to the submission's resources has ended.
pub open spec fn retires(reply: Result<bool, VkResult>) -> bool {
    reply == Ok::<bool, VkResult>(true) || reply == Err::<bool, VkResult>(lost())
}

/// What becomes of a submission at the end of its owner.
#[derive(Debug)]
pub enum Disposal<T> {
    /// Retired: what it still owned can be destroyed.
    Release(Option<T>),
    /// Not known to be retired: everything is kept alive for good.
    Retain,
}

/// A nonblocking look at a completion.
#[derive(Clone, Copy, Debug)]
pub enum Attempt {
    /// The state was free and was polled.
    Polled(Result<bool, VkResult>),
    /// Another consumer holds the state; the retired flag was read once more.
    Contended { retired: bool },
}

impl<T> CompletionState<T> {
    /// State of work that was just submitted.
    pub fn pending(owned: T) -> (state: Self)
        ensures
            state.outcome == Outcome::Pending,
            state.owned == Some(owned),
    {
        CompletionState { outcome: Outcome::Pending, owned: Some(owned) }
    }

    /// Takes the fence's answer into account.
    pub fn observe(&mut self, reply: Result<bool, VkResult>) -> (result: Result<bool, VkResult>)
        ensures
            result == reported(old(self).outcome, reply),
            final(self).outcome == outcome_after(old(self).outcome, reply),
            final(self).owned == old(self).owned,
    {
        match self.outcome {
            Outcome::Complete => {
                return Ok(true);
            },
            Outcome::DeviceLost => {
                return Err(VkResult::device_lost());
            },
            Outcome::Pending => {},
        }
        match reply {
            Ok(done) => {
                if done {
                    self.outcome = Outcome::Complete;
                }
            },
            Err(err) => {
                if err.is_device_lost() {
                    self.outcome = Outcome::DeviceLost;
                }
            },
        }
        reply
    }

    /// Extracts what a retired submission owns. Pending work keeps everything.
    pub fn take_retired(&mut self) -> (owned: Option<T>)
        ensures
            final(self).outcome == old(self).outcome,
            old(self).outcome == Outcome::Pending ==> owned is None && final(self).owned == old(self).owned,
            old(self).outcome != Outcome::Pending ==> owned == old(self).owned && final(self).owned is None,
    {
        if self.outcome == Outcome::Pending {
            None
        } else {
            self.owned.take()
        }
    }

    /// Whether the fence still has to be asked.
    pub fn needs_query(&self) -> (pending: bool)
        ensures
            pending == (self.outcome == Outcome::Pending),
    {
        self.outcome == Outcome::Pending
    }

    /// Takes the fence's answer into account and publishes what follows from it. The answer is
    /// disregarded once the outcome is decided: no fence is asked then.
    ///
    /// `retired` is the completion's monotonic flag; it treats loss as retired access, not valid
    /// pixels. Global loss only stops new work: each pending fence still needs its own answer to
    /// prove retired access.
    pub fn poll(
        &mut self,
        reply: Result<bool, VkResult>,
        retired: &mut bool,
        device_lost: &mut bool,
    ) -> (result: Result<bool, VkResult>)
        ensures
            result == reported(old(self).outcome, reply),
            final(self).outcome == outcome_after(old(self).outcome, reply),
            final(self).owned == old(self).owned,
            *final(retired) == (*old(retired) || final(self).outcome != Outcome::Pending),
            *final(device_lost) == (*old(device_lost) || (old(self).outcome == Outcome::Pending
                && reply == Err::<bool, VkResult>(lost()))),
    {
        if self.outcome != Outcome::Pending {
            *retired = true;
            return self.observe(Ok(false));
        }
        if let Err(err) = reply {
            if err.is_device_lost() {
                *device_lost = true;
            }
        }
        let result = self.observe(reply);
        if self.outcome != Outcome::Pending {
            *retired = true;
        }
        result
    }

    /// Polls on behalf of the engine and extracts what a retired submission owns. An error,
    /// device loss included, is passed on before anything is extracted.
    pub fn reap(
        &mut self,
        reply: Result<bool, VkResult>,
        retired: &mut bool,
        device_lost: &mut bool,
    ) -> (extracted: Result<Option<T>, VkResult>)
        ensures
            final(self).outcome == outcome_after(old(self).outcome, reply),
            *final(retired) == (*old(retired) || final(self).outcome != Outcome::Pending),
            *final(device_lost) == (*old(device_lost) || (old(self).outcome == Outcome::Pending
                && reply == Err::<bool, VkResult>(lost()))),
            match reported(old(self).outcome, reply) {
                Err(err) => extracted == Err::<Option<T>, VkResult>(err) && final(self).owned
                    == old(self).owned,
                Ok(true) => extracted == Ok::<Option<T>, VkResult>(old(self).owned) && final(self).owned is None,
                Ok(false) => extracted == Ok::<Option<T>, VkResult>(None) && final(self).owned
                    == old(self).owned,
            },
    {
        match self.poll(reply, retired, device_lost) {
            Ok(_) => Ok(self.take_retired()),
            Err(err) => Err(err),
        }
    }

    /// Decides, after a blocking wait, what becomes of the submission when its owner goes away.
    /// An unexpected wait failure retains the whole ownership tree.
    pub fn retire(
        &mut self,
        reply: Result<bool, VkResult>,
        retired: &mut bool,
        device_lost: &mut bool,
        timing: &mut Timing,
    ) -> (disposal: Disposal<T>)
        requires
            old(timing).wf(),
        ensures
            final(timing).wf(),
            final(self).outcome == outcome_after(old(self).outcome, reply),
            *final(retired) == (*old(retired) || final(self).outcome != Outcome::Pending),
            *final(device_lost) == (*old(device_lost) || (old(self).outcome == Outcome::Pending
                && reply == Err::<bool, VkResult>(lost()))),
            retires(reported(old(self).outcome, reply)) ==> {
                &&& disposal == Disposal::Release(old(self).owned)
                &&& final(self).owned is None
                &&& final(timing)@ == if old(self).owned is Some {
                    timing_counted(old(timing)@, Counter::BatchesRetired, 1)
                } else {
                    old(timing)@
                }
            },
            !retires(reported(old(self).outcome, reply)) ==> {
                &&& disposal is Retain
                &&& final(self).owned == old(self).owned
                &&& final(timing)@ == old(timing)@
            },
    {
        if reply_retires(self.poll(reply, retired, device_lost)) {
            let owned = self.take_retired();
            if owned.is_some() {
                count(timing, Counter::BatchesRetired, 1);
            }
            Disposal::Release(owned)
        } else {
            Disposal::Retain
        }
    }
}

fn reply_retires(reply: Result<bool, VkResult>) -> (retired: bool)
    ensures
        retired == retires(reply),
{
    match reply {
        Ok(done) => done,
        Err(err) => err.is_device_lost(),
    }
}

/// Whether a fence counts as signaled. A terminal state is never reported as unsignaled merely
/// because another consumer holds it: a waiter may have published completion since `retired` was
/// read.
pub fn is_signaled(retired: bool, attempt: Attempt) -> (signaled: bool)
    ensures
        signaled == (retired || match attempt {
            Attempt::Polled(reply) => retires(reply),
            Attempt::Contended { retired: again } => again,
        }),
{
    if retired {
        return true;
    }
    match attempt {
        Attempt::Polled(reply) => reply_retires(reply),
        Attempt::Contended { retired: again } => again,
    }
}

/// What a consumer's wait returns: device loss retires resource access, but does NOT make pixels
/// valid. The engine keeps reporting the raw device-loss error.
pub fn retirement_wait(result: Result<(), VkResult>) -> (waited: Result<(), Interrupted>)
    ensures
        waited is Ok <==> result is Ok || result == Err::<(), VkResult>(lost()),
{
    match result {
        Ok(()) => Ok(()),
        Err(err) => if err.is_device_lost() {
            Ok(())
        } else {
            Err(Interrupted)
        },
    }
}

/// A consumer's wait: immediate once retired, otherwise decided by the blocking poll.
pub fn fence_wait(retired: bool, polled: Result<bool, VkResult>) -> (waited: Result<
    (),
    Interrupted,
>)
    ensures
        waited is Ok <==> retired || polled is Ok || polled == Err::<bool, VkResult>(lost()),
{
    if retired {
        return Ok(());
    }
    match polled {
        Ok(_) => retirement_wait(Ok(())),
        Err(err) => retirement_wait(Err(err)),
    }
}

/// The outcome after a series of answers.
pub open spec fn outcome_after_all(
    outcome: Outcome,
    replies: Seq<Result<bool, VkResult>>,
) -> Outcome
    decreases replies.len(),
{
    if replies.len() == 0 {
        outcome
    } else {
        outcome_after(outcome_after_all(outcome, replies.drop_last()), replies.last())
    }
}

/// A decided outcome is final: no later answer changes it, and every later query reports it.
pub proof fn decided_outcome_is_final(
    outcome: Outcome,
    replies: Seq<Result<bool, VkResult>>,
    later: Result<bool, VkResult>,
)
    requires
        outcome != Outcome::Pending,
    ensures
        outcome_after_all(outcome, replies) == outcome,
        retires(reported(outcome_after_all(outcome, replies), later)),
        outcome == Outcome::Complete ==> reported(
            outcome_after_all(outcome, replies),
            later,
        ) == Ok::<bool, VkResult>(true),
        outcome == Outcome::DeviceLost ==> reported(
            outcome_after_all(outcome, replies),
            later,
        ) == Err::<bool, VkResult>(lost()),
    decreases replies.len(),
{
    if replies.len() > 0 {
        decided_outcome_is_final(outcome, replies.drop_last(), later);
    }
}

/// Only the submission's own fence decides: without an answer that retires it, work stays pending,
/// whatever unexpected errors are reported.
pub proof fn only_retiring_answers_decide(replies: Seq<Result<bool, VkResult>>)
    ensures
        outcome_after_all(Outcome::Pending, replies) == Outcome::Pending <==> (forall|i: int|
            0 <= i < replies.len() ==> !retires(#[trigger] replies[i])),
    decreases replies.len(),
{
    if replies.len() > 0 {
        let rest = replies.drop_last();
        only_retiring_answers_decide(rest);
        if outcome_after_all(Outcome::Pending, rest) != Outcome::Pending {
            let i = choose|i: int| 0 <= i < rest.len() && retires(#[trigger] rest[i]);
            assert(retires(replies[i]));
        } else {
            assert(forall|i: int| 0 <= i < rest.len() ==> rest[i] == replies[i]);
            assert(replies[replies.len() - 1] == replies.last());
        }
    }
}

/// A pending outcome is decided by its fence: reached means complete, the code of a lost device
/// means lost, and anything else leaves it pending. While it is pending the answer itself is
/// reported.
pub proof fn pending_outcomes_follow_the_fence(reply: Result<bool, VkResult>)
    ensures
        ({
            let after = outcome_after(Outcome::Pending, reply);
            &&& reported(Outcome::Pending, reply) == reply
            &&& match reply {
                Ok(done) => after == (if done {
                    Outcome::Complete
                } else {
                    Outcome::Pending
                }) && retires(reply) == done,
                Err(err) => after == (if err.raw == -4 {
                    Outcome::DeviceLost
                } else {
                    Outcome::Pending
                }) && retires(reply) == (err.raw == -4),
            }
        }),
{
}

/// A decided outcome is reported whatever the fence answers: completion as reached, and loss as
/// loss.
pub proof fn decided_outcomes_are_reported(reply: Result<bool, VkResult>)
    ensures
        outcome_after(Outcome::Complete, reply) == Outcome::Complete,
        outcome_after(Outcome::DeviceLost, reply) == Outcome::DeviceLost,
        reported(Outcome::Complete, reply) == Ok::<bool, VkResult>(true),
        reported(Outcome::DeviceLost, reply) is Err,
        (reported(Outcome::DeviceLost, reply)->Err_0).raw == -4,
{
}

} // verus!
