//! The title-bar script and when it is injected.
//!
//! A page may still be loading, or may navigate away, when its window is
//! built, so one injection is not enough. The script is injected at a fixed
//! schedule of moments after the window was built or a page was loaded. Each
//! page load starts a schedule of its own; none is ever cancelled.

use crate::platform::Platform;
use vstd::prelude::*;

verus! {

/// The moments of injection, in milliseconds after the schedule was started.
pub open spec fn injection_offsets() -> Seq<u64> {
    seq![0, 200, 600, 1200, 2000, 4000, 6000, 8000, 10000]
}

/// The schedule on `platform`: the offsets where windows carry an overlay
/// title bar, and nothing elsewhere.
pub open spec fn schedule_on(platform: Platform) -> Seq<u64> {
    if platform.overlay_titlebar() {
        injection_offsets()
    } else {
        Seq::empty()
    }
}

/// Whether each offset lies after the one before it.
pub open spec fn strictly_increasing(offsets: Seq<u64>) -> bool {
    forall|i: int, j: int| 0 <= i < j < offsets.len() ==> offsets[i] < offsets[j]
}

/// The time to wait before step `step`: from the start for the first step,
/// from the step before for every other.
pub open spec fn wait_before(offsets: Seq<u64>, step: int) -> int {
    if step <= 0 {
        offsets[0] as int
    } else {
        offsets[step] - offsets[step - 1]
    }
}

/// The time that has passed when step `step` fires, if each step waits as
/// `wait_before` says.
pub open spec fn fires_at(offsets: Seq<u64>, step: int) -> int
    decreases step,
{
    if step <= 0 {
        wait_before(offsets, 0)
    } else {
        fires_at(offsets, step - 1) + wait_before(offsets, step)
    }
}

/// The moments of injection on `platform`, in milliseconds after the schedule
/// was started.
pub fn injection_schedule(platform: Platform) -> (offsets: Vec<u64>)
    ensures
        offsets@ == schedule_on(platform),
{
    let mut offsets: Vec<u64> = Vec::new();
    if platform.supports_overlay_titlebar() {
        offsets.push(0);
        offsets.push(200);
        offsets.push(600);
        offsets.push(1200);
        offsets.push(2000);
        offsets.push(4000);
        offsets.push(6000);
        offsets.push(8000);
        offsets.push(10000);
    }
    assert(offsets@ =~= schedule_on(platform));
    offsets
}

/// One schedule as it runs: the offsets, and how many steps have fired.
#[derive(Debug)]
pub struct InjectionRun {
    offsets: Vec<u64>,
    fired: usize,
}

/// What an `InjectionRun` holds.
pub struct InjectionRunView {
    pub offsets: Seq<u64>,
    pub fired: nat,
}

impl View for InjectionRun {
    type V = InjectionRunView;

    closed spec fn view(&self) -> InjectionRunView {
        InjectionRunView { offsets: self.offsets@, fired: self.fired as nat }
    }
}

impl InjectionRun {
    #[verifier::type_invariant]
    spec fn in_step(self) -> bool {
        &&& self.fired <= self.offsets.len()
        &&& strictly_increasing(self.offsets@)
    }

    /// Starts a schedule for a window on `platform`. Where windows carry no
    /// overlay title bar the schedule is empty and ends at once.
    pub fn schedule(platform: Platform) -> (run: InjectionRun)
        ensures
            run@ == (InjectionRunView { offsets: schedule_on(platform), fired: 0 }),
    {
        let offsets = injection_schedule(platform);
        assert(strictly_increasing(offsets@));
        InjectionRun { offsets, fired: 0 }
    }

    /// Whether every step has fired.
    pub fn is_done(&self) -> (done: bool)
        ensures
            done == (self@.fired >= self@.offsets.len()),
    {
        self.fired >= self.offsets.len()
    }

    /// The next step: how long the host waits, in milliseconds, before it
    /// injects the script once more. `None` when every step has fired. A step
    /// whose injection fails counts as fired like any other.
    pub fn next_wait(&mut self) -> (wait: Option<u64>)
        ensures
            final(self)@.offsets == old(self)@.offsets,
            match wait {
                Some(w) => {
                    &&& old(self)@.fired < old(self)@.offsets.len()
                    &&& w == wait_before(old(self)@.offsets, old(self)@.fired as int)
                    &&& final(self)@.fired == old(self)@.fired + 1
                },
                None => old(self)@.fired >= old(self)@.offsets.len() && final(self)@ == old(self)@,
            },
    {
        proof {
            use_type_invariant(&*self);
        }
        if self.fired >= self.offsets.len() {
            return None;
        }
        let at = self.offsets[self.fired];
        let wait = if self.fired == 0 {
            at
        } else {
            at - self.offsets[self.fired - 1]
        };
        self.fired = self.fired + 1;
        Some(wait)
    }
}

/// The schedule fires in order, each step at its offset from the start: the
/// waits before the steps add up to the offsets. The last step fires after
/// ten seconds.
pub proof fn lemma_schedule_keeps_time(step: int)
    requires
        0 <= step < injection_offsets().len(),
    ensures
        strictly_increasing(injection_offsets()),
        fires_at(injection_offsets(), step) == injection_offsets()[step],
        step > 0 ==> wait_before(injection_offsets(), step) > 0,
        injection_offsets().last() == 10000,
    decreases step,
{
    if step > 0 {
        lemma_schedule_keeps_time(step - 1);
    }
}

} // verus!
