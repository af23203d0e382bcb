use vstd::prelude::*;

verus! {

/// One outside action of an acquisition; the driver performs it and reports
/// whether it succeeded.
#[derive(Debug, Clone, Copy, PartialEq, Eq, Structural)]
pub enum Step {
    /// Test whether the installed artifact is already in the cache.
    Probe,
    /// Resolve the platform to an artifact; fails for a platform outside the table.
    Resolve,
    /// Create the cache directory and a private staging directory inside it.
    CreateRoot,
    /// Transfer the archive into the staging directory.
    Download,
    /// Unpack the archive inside the staging directory.
    Extract,
    /// Set the executable permission bit on the unpacked file.
    MarkExecutable,
    /// Rename the unpacked artifact from the staging directory into its final place.
    Publish,
    /// Remove the staging directory with the archive.
    RemoveStaging,
    /// Test that the expected installed file exists.
    Confirm,
}

/// Where an acquisition stands.
#[derive(Debug, Clone, Copy, PartialEq, Eq, Structural)]
pub enum AcqState {
    /// Waiting for the outcome of this step.
    Pending(Step),
    /// Waiting for the staging directory's removal; holds the failure to
    /// report after it, if any.
    Cleanup(Option<Step>),
    /// Terminal: the artifact was already installed; nothing was fetched.
    Cached,
    /// Terminal: the artifact was fetched and installed.
    Ready,
    /// Terminal: this step failed.
    Failed(Step),
}

/// The acquisition state machine, from one state and the outcome of the step
/// it waits for to the next state. `fix_permissions` adds the step that sets
/// the executable bit.
pub open spec fn next_state(fix_permissions: bool, s: AcqState, ok: bool) -> AcqState {
    match s {
        AcqState::Pending(step) => match step {
            Step::Probe => if ok { AcqState::Cached } else { AcqState::Pending(Step::Resolve) },
            Step::Resolve => if ok {
                AcqState::Pending(Step::CreateRoot)
            } else {
                AcqState::Failed(Step::Resolve)
            },
            Step::CreateRoot => if ok {
                AcqState::Pending(Step::Download)
            } else {
                AcqState::Failed(Step::CreateRoot)
            },
            Step::Download => if ok {
                AcqState::Pending(Step::Extract)
            } else {
                AcqState::Cleanup(Some(Step::Download))
            },
            Step::Extract => if !ok {
                AcqState::Cleanup(Some(Step::Extract))
            } else if fix_permissions {
                AcqState::Pending(Step::MarkExecutable)
            } else {
                AcqState::Pending(Step::Publish)
            },
            Step::MarkExecutable => if ok {
                AcqState::Pending(Step::Publish)
            } else {
                AcqState::Cleanup(Some(Step::MarkExecutable))
            },
            Step::Publish => if ok {
                AcqState::Cleanup(None)
            } else {
                AcqState::Cleanup(Some(Step::Publish))
            },
            Step::RemoveStaging => AcqState::Pending(Step::Confirm),
            Step::Confirm => if ok { AcqState::Ready } else { AcqState::Failed(Step::Confirm) },
        },
        AcqState::Cleanup(pending) => match pending {
            Some(step) => AcqState::Failed(step),
            None => AcqState::Pending(Step::Confirm),
        },
        _ => s,
    }
}

/// The step a state waits for; none in a terminal state.
pub open spec fn step_of(s: AcqState) -> Option<Step> {
    match s {
        AcqState::Pending(step) => Some(step),
        AcqState::Cleanup(_) => Some(Step::RemoveStaging),
        _ => None,
    }
}

/// A state that waits for no step.
pub open spec fn is_terminal(s: AcqState) -> bool {
    step_of(s).is_none()
}

/// The state reached from `s` after the outcomes `outcomes`, in order.
pub open spec fn run(fix_permissions: bool, s: AcqState, outcomes: Seq<bool>) -> AcqState
    decreases outcomes.len(),
{
    if outcomes.len() == 0 {
        s
    } else {
        run(fix_permissions, next_state(fix_permissions, s, outcomes[0]), outcomes.drop_first())
    }
}

/// How many times `step` is performed on the way from `s` through `outcomes`.
pub open spec fn performed(fix_permissions: bool, s: AcqState, outcomes: Seq<bool>, step: Step) -> nat
    decreases outcomes.len(),
{
    if outcomes.len() == 0 {
        0
    } else {
        (if step_of(s) == Some(step) { 1nat } else { 0nat }) + performed(
            fix_permissions,
            next_state(fix_permissions, s, outcomes[0]),
            outcomes.drop_first(),
            step,
        )
    }
}

/// Whether `step` is performed and succeeds on the way from `s` through `outcomes`.
pub open spec fn succeeded(fix_permissions: bool, s: AcqState, outcomes: Seq<bool>, step: Step) -> bool
    decreases outcomes.len(),
{
    if outcomes.len() == 0 {
        false
    } else {
        (step_of(s) == Some(step) && outcomes[0]) || succeeded(
            fix_permissions,
            next_state(fix_permissions, s, outcomes[0]),
            outcomes.drop_first(),
            step,
        )
    }
}

/// The start of every acquisition.
pub open spec fn start() -> AcqState {
    AcqState::Pending(Step::Probe)
}

/// One acquisition in progress.
#[derive(Debug, Clone)]
pub struct Acquisition {
    pub fix_permissions: bool,
    pub state: AcqState,
}

impl Acquisition {
    /// A new acquisition, about to look for the installed artifact.
    pub fn new(fix_permissions: bool) -> (r: Acquisition)
        ensures
            r.fix_permissions == fix_permissions,
            r.state == start(),
    {
        Acquisition { fix_permissions, state: AcqState::Pending(Step::Probe) }
    }

    /// The step to perform next; `None` once the acquisition has ended.
    pub fn next_step(&self) -> (r: Option<Step>)
        ensures
            r == step_of(self.state),
    {
        match self.state {
            AcqState::Pending(step) => Some(step),
            AcqState::Cleanup(_) => Some(Step::RemoveStaging),
            _ => None,
        }
    }

    /// Records the outcome of the step just performed.
    pub fn advance(&mut self, ok: bool)
        ensures
            final(self).fix_permissions == old(self).fix_permissions,
            final(self).state == next_state(old(self).fix_permissions, old(self).state, ok),
    {
        let fix = self.fix_permissions;
        let next = match self.state {
            AcqState::Pending(step) => match step {
                Step::Probe => if ok {
                    AcqState::Cached
                } else {
                    AcqState::Pending(Step::Resolve)
                },
                Step::Resolve => if ok {
                    AcqState::Pending(Step::CreateRoot)
                } else {
                    AcqState::Failed(Step::Resolve)
                },
                Step::CreateRoot => if ok {
                    AcqState::Pending(Step::Download)
                } else {
                    AcqState::Failed(Step::CreateRoot)
                },
                Step::Download => if ok {
                    AcqState::Pending(Step::Extract)
                } else {
                    AcqState::Cleanup(Some(Step::Download))
                },
                Step::Extract => if !ok {
                    AcqState::Cleanup(Some(Step::Extract))
                } else if fix {
                    AcqState::Pending(Step::MarkExecutable)
                } else {
                    AcqState::Pending(Step::Publish)
                },
                Step::MarkExecutable => if ok {
                    AcqState::Pending(Step::Publish)
                } else {
                    AcqState::Cleanup(Some(Step::MarkExecutable))
                },
                Step::Publish => if ok {
                    AcqState::Cleanup(None)
                } else {
                    AcqState::Cleanup(Some(Step::Publish))
                },
                Step::RemoveStaging => AcqState::Pending(Step::Confirm),
                Step::Confirm => if ok {
                    AcqState::Ready
                } else {
                    AcqState::Failed(Step::Confirm)
                },
            },
            AcqState::Cleanup(pending) => match pending {
                Some(step) => AcqState::Failed(step),
                None => AcqState::Pending(Step::Confirm),
            },
            other => other,
        };
        self.state = next;
    }

    /// The result once the acquisition has ended: whether the artifact is
    /// available, or the step that failed.
    pub fn outcome(&self) -> (r: Option<Result<(), Step>>)
        ensures
            r == match self.state {
                AcqState::Cached | AcqState::Ready => Some(Ok(())),
                AcqState::Failed(step) => Some(Err(step)),
                _ => None::<Result<(), Step>>,
            },
    {
        match self.state {
            AcqState::Cached | AcqState::Ready => Some(Ok(())),
            AcqState::Failed(step) => Some(Err(step)),
            _ => None,
        }
    }
}

/// A terminal state stays as it is, whatever is reported afterwards.
pub proof fn lemma_terminal_stays(fix_permissions: bool, s: AcqState, outcomes: Seq<bool>)
    requires
        is_terminal(s),
    ensures
        run(fix_permissions, s, outcomes) == s,
        forall|step: Step| performed(fix_permissions, s, outcomes, step) == 0,
        forall|step: Step| !succeeded(fix_permissions, s, outcomes, step),
    decreases outcomes.len(),
{
    if outcomes.len() > 0 {
        lemma_terminal_stays(fix_permissions, s, outcomes.drop_first());
        assert(next_state(fix_permissions, s, outcomes[0]) == s);
        assert forall|step: Step| performed(fix_permissions, s, outcomes, step) == 0 by {
            assert(step_of(s).is_none());
            assert(performed(fix_permissions, s, outcomes.drop_first(), step) == 0);
        }
        assert forall|step: Step| !succeeded(fix_permissions, s, outcomes, step) by {
            assert(step_of(s).is_none());
            assert(!succeeded(fix_permissions, s, outcomes.drop_first(), step));
        }
    }
}

/// Idempotence: when the artifact is already installed, acquiring it again
/// ends at once in the cached state and downloads nothing, whatever follows.
pub proof fn lemma_cached_fetches_nothing(fix_permissions: bool, outcomes: Seq<bool>)
    requires
        outcomes.len() > 0,
        outcomes[0],
    ensures
        run(fix_permissions, start(), outcomes) == AcqState::Cached,
        performed(fix_permissions, start(), outcomes, Step::Download) == 0,
{
    lemma_terminal_stays(fix_permissions, AcqState::Cached, outcomes.drop_first());
    assert(performed(fix_permissions, AcqState::Cached, outcomes.drop_first(), Step::Download) == 0);
}

/// States from which the launcher's machine can end ready without setting the
/// executable bit on the way.
pub open spec fn past_marking(s: AcqState) -> bool {
    ||| s == AcqState::Pending(Step::Publish)
    ||| s == AcqState::Cleanup(None)
    ||| s == AcqState::Pending(Step::RemoveStaging)
    ||| s == AcqState::Pending(Step::Confirm)
    ||| s == AcqState::Ready
}

proof fn lemma_ready_requires(s: AcqState, outcomes: Seq<bool>)
    requires
        run(true, s, outcomes) == AcqState::Ready,
    ensures
        succeeded(true, s, outcomes, Step::MarkExecutable) || past_marking(s),
        succeeded(true, s, outcomes, Step::Confirm) || s == AcqState::Ready,
    decreases outcomes.len(),
{
    if outcomes.len() > 0 {
        let next = next_state(true, s, outcomes[0]);
        lemma_ready_requires(next, outcomes.drop_first());
    }
}

/// When the launcher's acquisition ends ready after starting from the probe,
/// the executable bit was set successfully and the installed file was found.
pub proof fn lemma_ready_is_executable(outcomes: Seq<bool>)
    requires
        run(true, start(), outcomes) == AcqState::Ready,
    ensures
        succeeded(true, start(), outcomes, Step::MarkExecutable),
        succeeded(true, start(), outcomes, Step::Confirm),
{
    lemma_ready_requires(start(), outcomes);
}

/// From an empty cache, when every step after the probe succeeds, the
/// launcher's acquisition downloads once, sets the executable bit, publishes
/// the file and ends ready, whatever is reported afterwards.
pub proof fn lemma_full_cycle_ready(outcomes: Seq<bool>)
    requires
        outcomes.len() >= 9,
        !outcomes[0],
        forall|i: int| 1 <= i < outcomes.len() ==> outcomes[i],
    ensures
        run(true, start(), outcomes) == AcqState::Ready,
        performed(true, start(), outcomes, Step::Download) == 1,
        succeeded(true, start(), outcomes, Step::MarkExecutable),
        succeeded(true, start(), outcomes, Step::Publish),
{
    let n = outcomes.len() as int;
    let o1 = outcomes.subrange(1, n);
    let o2 = outcomes.subrange(2, n);
    let o3 = outcomes.subrange(3, n);
    let o4 = outcomes.subrange(4, n);
    let o5 = outcomes.subrange(5, n);
    let o6 = outcomes.subrange(6, n);
    let o7 = outcomes.subrange(7, n);
    let o8 = outcomes.subrange(8, n);
    let o9 = outcomes.subrange(9, n);
    assert(outcomes.drop_first() =~= o1);
    assert(o1.drop_first() =~= o2);
    assert(o2.drop_first() =~= o3);
    assert(o3.drop_first() =~= o4);
    assert(o4.drop_first() =~= o5);
    assert(o5.drop_first() =~= o6);
    assert(o6.drop_first() =~= o7);
    assert(o7.drop_first() =~= o8);
    assert(o8.drop_first() =~= o9);
    assert(o1[0] && o2[0] && o3[0] && o4[0] && o5[0] && o6[0] && o7[0] && o8[0]) by {
        assert(outcomes[1] && outcomes[2] && outcomes[3] && outcomes[4]);
        assert(outcomes[5] && outcomes[6] && outcomes[7] && outcomes[8]);
    }
    let ready = AcqState::Ready;
    lemma_terminal_stays(true, ready, o9);
    assert(performed(true, ready, o9, Step::Download) == 0);
    let s8 = AcqState::Pending(Step::Confirm);
    let s7 = AcqState::Cleanup(None);
    let s6 = AcqState::Pending(Step::Publish);
    let s5 = AcqState::Pending(Step::MarkExecutable);
    let s4 = AcqState::Pending(Step::Extract);
    let s3 = AcqState::Pending(Step::Download);
    let s2 = AcqState::Pending(Step::CreateRoot);
    let s1 = AcqState::Pending(Step::Resolve);
    assert(run(true, s8, o8) == ready && performed(true, s8, o8, Step::Download) == 0);
    assert(run(true, s7, o7) == ready && performed(true, s7, o7, Step::Download) == 0);
    assert(run(true, s6, o6) == ready && performed(true, s6, o6, Step::Download) == 0);
    assert(succeeded(true, s6, o6, Step::Publish));
    assert(run(true, s5, o5) == ready && performed(true, s5, o5, Step::Download) == 0);
    assert(succeeded(true, s5, o5, Step::MarkExecutable) && succeeded(true, s5, o5, Step::Publish));
    assert(run(true, s4, o4) == ready && performed(true, s4, o4, Step::Download) == 0);
    assert(succeeded(true, s4, o4, Step::MarkExecutable) && succeeded(true, s4, o4, Step::Publish));
    assert(run(true, s3, o3) == ready && performed(true, s3, o3, Step::Download) == 1);
    assert(succeeded(true, s3, o3, Step::MarkExecutable) && succeeded(true, s3, o3, Step::Publish));
    assert(run(true, s2, o2) == ready && performed(true, s2, o2, Step::Download) == 1);
    assert(succeeded(true, s2, o2, Step::MarkExecutable) && succeeded(true, s2, o2, Step::Publish));
    assert(run(true, s1, o1) == ready && performed(true, s1, o1, Step::Download) == 1);
    assert(succeeded(true, s1, o1, Step::MarkExecutable) && succeeded(true, s1, o1, Step::Publish));
}

/// A platform outside the table ends the acquisition as failed at the
/// resolution: no cache directory is created and nothing is downloaded,
/// whatever is reported afterwards.
pub proof fn lemma_unsupported_platform_stops(fix_permissions: bool, outcomes: Seq<bool>)
    requires
        outcomes.len() >= 2,
        !outcomes[0],
        !outcomes[1],
    ensures
        run(fix_permissions, start(), outcomes) == AcqState::Failed(Step::Resolve),
        performed(fix_permissions, start(), outcomes, Step::CreateRoot) == 0,
        performed(fix_permissions, start(), outcomes, Step::Download) == 0,
{
    let o1 = outcomes.drop_first();
    let o2 = o1.drop_first();
    let failed = AcqState::Failed(Step::Resolve);
    lemma_terminal_stays(fix_permissions, failed, o2);
    assert(performed(fix_permissions, failed, o2, Step::CreateRoot) == 0);
    assert(performed(fix_permissions, failed, o2, Step::Download) == 0);
    assert(!o1[0]);
    let s1 = AcqState::Pending(Step::Resolve);
    assert(run(fix_permissions, s1, o1) == failed);
    assert(performed(fix_permissions, s1, o1, Step::CreateRoot) == 0);
    assert(performed(fix_permissions, s1, o1, Step::Download) == 0);
}

/// A failed download ends the acquisition as failed at the download, after
/// the staging directory's removal, whatever is reported afterwards.
pub proof fn lemma_failed_download_unavailable(fix_permissions: bool, outcomes: Seq<bool>)
    requires
        outcomes.len() >= 5,
        !outcomes[0],
        outcomes[1],
        outcomes[2],
        !outcomes[3],
    ensures
        run(fix_permissions, start(), outcomes) == AcqState::Failed(Step::Download),
        performed(fix_permissions, start(), outcomes, Step::RemoveStaging) == 1,
{
    let n = outcomes.len() as int;
    let o1 = outcomes.subrange(1, n);
    let o2 = outcomes.subrange(2, n);
    let o3 = outcomes.subrange(3, n);
    let o4 = outcomes.subrange(4, n);
    let o5 = outcomes.subrange(5, n);
    assert(outcomes.drop_first() =~= o1);
    assert(o1.drop_first() =~= o2);
    assert(o2.drop_first() =~= o3);
    assert(o3.drop_first() =~= o4);
    assert(o4.drop_first() =~= o5);
    assert(o1[0] && o2[0] && !o3[0]);
    let failed = AcqState::Failed(Step::Download);
    lemma_terminal_stays(fix_permissions, failed, o5);
    assert(performed(fix_permissions, failed, o5, Step::RemoveStaging) == 0);
    let s4 = AcqState::Cleanup(Some(Step::Download));
    let s3 = AcqState::Pending(Step::Download);
    let s2 = AcqState::Pending(Step::CreateRoot);
    let s1 = AcqState::Pending(Step::Resolve);
    assert(run(fix_permissions, s4, o4) == failed);
    assert(performed(fix_permissions, s4, o4, Step::RemoveStaging) == 1);
    assert(run(fix_permissions, s3, o3) == failed);
    assert(performed(fix_permissions, s3, o3, Step::RemoveStaging) == 1);
    assert(run(fix_permissions, s2, o2) == failed);
    assert(performed(fix_permissions, s2, o2, Step::RemoveStaging) == 1);
    assert(run(fix_permissions, s1, o1) == failed);
    assert(performed(fix_permissions, s1, o1, Step::RemoveStaging) == 1);
}

} // verus!
