//! Decisions of the background loop that watches for builds in progress.
use vstd::prelude::*;
use crate::aggregate::{AccountFetch, DeploymentBatch};
use crate::railway::{railway_in_progress, railway_unified};
use crate::unified::is_terminal;
use crate::vercel::{effective_state, vercel_in_progress, vercel_unified};

verus! {

/// Seconds the loop sleeps while no build is flagged.
pub const IDLE_INTERVAL_SECS: u64 = 5;

/// Seconds the loop sleeps between polls while a build is flagged.
pub const POLL_INTERVAL_SECS: u64 = 10;

/// How many recent deployments are fetched per account on each poll.
pub const POLL_PAGE_SIZE: u32 = 5;

/// Whether a build is believed to be in progress somewhere. Set by the
/// command layer; cleared only by the loop once no account reports one.
#[derive(Debug)]
pub struct BuildingFlag {
    building: bool,
}

impl View for BuildingFlag {
    type V = bool;

    closed spec fn view(&self) -> bool {
        self.building
    }
}

impl BuildingFlag {
    /// A flag that is not set.
    pub fn new() -> (r: BuildingFlag)
        ensures
            !r@,
    {
        BuildingFlag { building: false }
    }
}

/// Sets or clears the flag.
pub fn set_building_flag(flag: &mut BuildingFlag, building: bool)
    ensures
        final(flag)@ == building,
{
    flag.building = building;
}

/// Whether the flag is set.
pub fn get_building_flag(flag: &BuildingFlag) -> (r: bool)
    ensures
        r == flag@,
{
    flag.building
}

/// Some deployment of the batch is still building.
pub open spec fn batch_in_progress(b: DeploymentBatch) -> bool {
    match b {
        DeploymentBatch::Vercel(ds) => exists|i: int|
            0 <= i < ds@.len() && vercel_in_progress(effective_state(#[trigger] ds@[i])),
        DeploymentBatch::Railway(ds) => exists|i: int|
            0 <= i < ds@.len() && railway_in_progress(#[trigger] ds@[i].status),
    }
}

/// The account's fetch succeeded and shows a build in progress.
pub open spec fn fetch_in_progress(f: AccountFetch) -> bool {
    match f.result {
        Ok(b) => batch_in_progress(b),
        Err(_) => false,
    }
}

/// Every deployment the account reported has finished (a failed fetch
/// reports nothing).
pub open spec fn reports_only_terminal(f: AccountFetch) -> bool {
    match f.result {
        Ok(DeploymentBatch::Vercel(ds)) => forall|i: int|
            0 <= i < ds@.len() ==> is_terminal(vercel_unified(effective_state(#[trigger] ds@[i]))),
        Ok(DeploymentBatch::Railway(ds)) => forall|i: int|
            0 <= i < ds@.len() ==> is_terminal(railway_unified(#[trigger] ds@[i].status)),
        Err(_) => true,
    }
}

/// Whether this account's fetch shows a build in progress; scanning stops
/// at the first deployment that does.
pub fn has_build_in_progress(f: &AccountFetch) -> (r: bool)
    ensures
        r == fetch_in_progress(*f),
{
    match &f.result {
        Ok(DeploymentBatch::Vercel(ds)) => {
            let mut i: usize = 0;
            while i < ds.len()
                invariant
                    i <= ds@.len(),
                    f.result == Ok::<DeploymentBatch, String>(DeploymentBatch::Vercel(*ds)),
                    forall|j: int| 0 <= j < i ==> !vercel_in_progress(effective_state(#[trigger] ds@[j])),
                decreases ds@.len() - i,
            {
                if ds[i].get_state().is_in_progress() {
                    proof {
                        assert(vercel_in_progress(effective_state(ds@[i as int])));
                    }
                    return true;
                }
                i = i + 1;
            }
            false
        },
        Ok(DeploymentBatch::Railway(ds)) => {
            let mut i: usize = 0;
            while i < ds.len()
                invariant
                    i <= ds@.len(),
                    f.result == Ok::<DeploymentBatch, String>(DeploymentBatch::Railway(*ds)),
                    forall|j: int| 0 <= j < i ==> !railway_in_progress(#[trigger] ds@[j].status),
                decreases ds@.len() - i,
            {
                if ds[i].status.is_in_progress() {
                    proof {
                        assert(railway_in_progress(ds@[i as int].status));
                    }
                    return true;
                }
                i = i + 1;
            }
            false
        },
        Err(_) => false,
    }
}

/// What one wake of the loop decided.
#[derive(Debug, Clone, Copy, PartialEq, Eq, Structural)]
pub struct TickOutcome {
    /// The flag after the tick.
    pub building: bool,
    /// Whether to tell the indicator that everything is back to normal.
    pub notify_normal: bool,
    /// How long to sleep before the next wake.
    pub sleep_secs: u64,
}

/// One wake of the loop. Idle (flag clear): nothing to do, sleep the idle
/// interval. Polling (flag set, cache filled): the flag stays set exactly
/// when some polled account shows a build in progress; otherwise it is
/// cleared and the indicator is told once. Either way, sleep the poll
/// interval.
pub open spec fn tick(building: bool, initialized: bool, polled: Seq<AccountFetch>) -> TickOutcome {
    if !building {
        TickOutcome { building: false, notify_normal: false, sleep_secs: IDLE_INTERVAL_SECS }
    } else if !initialized {
        TickOutcome { building: true, notify_normal: false, sleep_secs: POLL_INTERVAL_SECS }
    } else {
        let found = exists|i: int| 0 <= i < polled.len() && fetch_in_progress(#[trigger] polled[i]);
        TickOutcome { building: found, notify_normal: !found, sleep_secs: POLL_INTERVAL_SECS }
    }
}

/// Whether the loop should poll the accounts on this wake.
pub fn should_poll(flag: &BuildingFlag, initialized: bool) -> (r: bool)
    ensures
        r == (flag@ && initialized),
{
    flag.building && initialized
}

/// Applies one wake of the loop to the flag, given the accounts polled on
/// this wake (in order, up to the first that shows a build in progress).
pub fn reconcile_tick(flag: &mut BuildingFlag, initialized: bool, polled: &Vec<AccountFetch>) -> (r: TickOutcome)
    ensures
        r == tick(old(flag)@, initialized, polled@),
        final(flag)@ == r.building,
{
    if !flag.building {
        return TickOutcome { building: false, notify_normal: false, sleep_secs: IDLE_INTERVAL_SECS };
    }
    if !initialized {
        return TickOutcome { building: true, notify_normal: false, sleep_secs: POLL_INTERVAL_SECS };
    }
    let mut i: usize = 0;
    while i < polled.len()
        invariant
            i <= polled@.len(),
            flag@ == old(flag)@,
            old(flag)@,
            initialized,
            forall|j: int| 0 <= j < i ==> !fetch_in_progress(#[trigger] polled@[j]),
        decreases polled@.len() - i,
    {
        if has_build_in_progress(&polled[i]) {
            proof {
                assert(fetch_in_progress(polled@[i as int]));
            }
            return TickOutcome { building: true, notify_normal: false, sleep_secs: POLL_INTERVAL_SECS };
        }
        i = i + 1;
    }
    flag.building = false;
    TickOutcome { building: false, notify_normal: true, sleep_secs: POLL_INTERVAL_SECS }
}

proof fn lemma_terminal_not_in_progress(f: AccountFetch)
    requires
        reports_only_terminal(f),
    ensures
        !fetch_in_progress(f),
{
    match f.result {
        Ok(DeploymentBatch::Vercel(ds)) => {
            assert forall|i: int| 0 <= i < ds@.len() implies !vercel_in_progress(effective_state(#[trigger] ds@[i])) by {
                assert(is_terminal(vercel_unified(effective_state(ds@[i]))));
            }
        },
        Ok(DeploymentBatch::Railway(ds)) => {
            assert forall|i: int| 0 <= i < ds@.len() implies !railway_in_progress(#[trigger] ds@[i].status) by {
                assert(is_terminal(railway_unified(ds@[i].status)));
            }
        },
        Err(_) => {},
    }
}

/// With the flag set, a poll in which every account reports only finished
/// deployments clears the flag and notifies the indicator; the wake after
/// that is idle and notifies nothing more.
pub proof fn lemma_finished_builds_clear_flag(polled: Seq<AccountFetch>, next: Seq<AccountFetch>, initialized: bool)
    requires
        forall|i: int| 0 <= i < polled.len() ==> reports_only_terminal(#[trigger] polled[i]),
    ensures
        tick(true, true, polled) == (TickOutcome { building: false, notify_normal: true, sleep_secs: POLL_INTERVAL_SECS }),
        !tick(tick(true, true, polled).building, initialized, next).notify_normal,
{
    assert forall|i: int| 0 <= i < polled.len() implies !fetch_in_progress(#[trigger] polled[i]) by {
        lemma_terminal_not_in_progress(polled[i]);
    }
}

/// With the flag set, a poll in which some account shows a build in
/// progress keeps the flag set and notifies nothing.
pub proof fn lemma_active_build_keeps_flag(polled: Seq<AccountFetch>, i: int)
    requires
        0 <= i < polled.len(),
        fetch_in_progress(polled[i]),
    ensures
        tick(true, true, polled) == (TickOutcome { building: true, notify_normal: false, sleep_secs: POLL_INTERVAL_SECS }),
{
}

} // verus!
