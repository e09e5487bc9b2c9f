//! Debugger: pausing, stepping, breakpoints and rewinding through snapshots

use vstd::prelude::*;
use crate::emu::{GameBoy, lemma_same_state_wf};
use crate::emu::clock::{Clock, Cycles, spec_next_frame_end};
use crate::emu::memory::Address;
use crate::emu::instruction::text::address_text;

verus! {

/// Maximum number of snapshots to store in the queue
pub const MAX_SNAPSHOTS: usize = 10;

/// A ternary state denoting if the emulator is running and whether the
/// debugger is visible
#[derive(Clone, Copy, Debug, PartialEq, Eq, Structural)]
pub enum RunState {
    /// Emulator is fully paused
    Paused,
    /// Emulator is running to a target clock cycle
    ///
    /// Debugger should be shown because the run period is short.
    Stepping,
    /// Emulator is running full bore
    ///
    /// Debugger is effectively disabled.
    Running,
}

impl RunState {
    /// Should the emulator be advanced? (`Stepping` and `Running`)
    pub fn should_tick(self) -> (r: bool)
        ensures
            r == (self != RunState::Paused),
    {
        match self {
            RunState::Paused => false,
            RunState::Stepping | RunState::Running => true,
        }
    }

    /// Should the debugger be visible? (`Paused` and `Stepping`)
    pub fn is_debugging(self) -> (r: bool)
        ensures
            r == (self != RunState::Running),
    {
        match self {
            RunState::Paused | RunState::Stepping => true,
            RunState::Running => false,
        }
    }
}

/// The run state given the pause flag and stepping target
pub open spec fn spec_run_state(paused: bool, step_until: Option<Cycles>) -> RunState {
    if paused {
        if step_until is Some {
            RunState::Stepping
        } else {
            RunState::Paused
        }
    } else {
        RunState::Running
    }
}

/// An indicator that the debugger should pause at a particular memory
/// instruction
///
/// The debugger can have multiple breakpoints registered at a time, and any
/// one of them can trigger a pause.
#[derive(Clone, Copy, Debug, PartialEq, Eq, Structural, Hash)]
pub struct Breakpoint {
    /// Address to pause at
    ///
    /// This only triggers if the PC **equals** that address.
    pub address: Address,
}

impl Breakpoint {
    /// A breakpoint at an address
    pub fn new(address: Address) -> (r: Self)
        ensures
            r.address == address,
    {
        Self { address }
    }

    /// The breakpoint's address, e.g. `$0150`
    pub fn to_string(&self) -> (r: String)
        ensures
            r@ == address_text(self.address),
    {
        self.address.to_string()
    }
}

/// A snapshot of a past emulator state
///
/// Emulation is deterministic, so each snapshot can be identified by its
/// clock cycle.
pub struct Snapshot(pub GameBoy);

impl Snapshot {
    /// The clock cycle identifying this snapshot
    pub open spec fn spec_id(&self) -> u64 {
        self.0.clock.cycles.0
    }

    /// Does this snapshot match the given emulator state?
    pub fn matches(&self, other: &GameBoy) -> (r: bool)
        ensures
            r == (self.spec_id() == other.clock.cycles.0),
    {
        self.id().0 == other.clock().cycles().0
    }

    /// Get the clock cycle identifying this snapshot
    pub fn id(&self) -> (r: Cycles)
        ensures
            r.0 == self.spec_id(),
    {
        self.0.clock().cycles()
    }
}

/// The clock cycles identifying a list of snapshots
pub open spec fn snapshot_ids(snapshots: Seq<Snapshot>) -> Seq<u64> {
    snapshots.map_values(|s: Snapshot| s.spec_id())
}

/// Does no value occur twice?
pub open spec fn distinct(ids: Seq<u64>) -> bool {
    forall|i: int, j: int| 0 <= i < j < ids.len() ==> ids[i] != ids[j]
}

/// Position of `id` in a list holding it
pub open spec fn position(ids: Seq<u64>, id: u64) -> int {
    choose|i: int| 0 <= i < ids.len() && ids[i] == id
}

/// In a list without repeats, the position of the value at `i` is `i`.
pub proof fn lemma_position(ids: Seq<u64>, i: int)
    requires
        distinct(ids),
        0 <= i < ids.len(),
    ensures
        position(ids, ids[i]) == i,
{
    let p = position(ids, ids[i]);
    assert(0 <= p < ids.len() && ids[p] == ids[i]);
}

/// The snapshot that [Debugger::previous_snapshot] moves to from cycle `id`
/// (one step older), if any
pub open spec fn previous_index(ids: Seq<u64>, id: u64) -> Option<int> {
    if ids.contains(id) && position(ids, id) + 1 < ids.len() {
        Some(position(ids, id) + 1)
    } else {
        None
    }
}

/// The snapshot that [Debugger::next_snapshot] moves to from cycle `id` (one
/// step newer), if any
pub open spec fn next_index(ids: Seq<u64>, id: u64) -> Option<int> {
    if ids.contains(id) && position(ids, id) >= 1 {
        Some(position(ids, id) - 1)
    } else {
        None
    }
}

/// Stepping back to the previous snapshot and then forward again returns to
/// the snapshot started from.
pub proof fn law_previous_then_next(ids: Seq<u64>, id: u64)
    requires
        distinct(ids),
        previous_index(ids, id) is Some,
    ensures
        next_index(ids, ids[previous_index(ids, id).unwrap()]) == Some(position(ids, id)),
{
    let p = position(ids, id);
    assert(ids[p] == id);
    lemma_position(ids, p + 1);
    assert(ids.contains(ids[p + 1]));
}

/// Stepping forward to the next snapshot and then back again returns to the
/// snapshot started from.
pub proof fn law_next_then_previous(ids: Seq<u64>, id: u64)
    requires
        distinct(ids),
        next_index(ids, id) is Some,
    ensures
        previous_index(ids, ids[next_index(ids, id).unwrap()]) == Some(position(ids, id)),
{
    let p = position(ids, id);
    assert(ids[p] == id);
    lemma_position(ids, p - 1);
    assert(ids.contains(ids[p - 1]));
}

/// Is `new` the debugger after toggling the pause of `old`?
///
/// Paused starts running; stepping stops stepping and stays paused; running
/// pauses.
pub open spec fn toggled(old: Debugger, new: Debugger) -> bool {
    &&& new.breakpoints == old.breakpoints
    &&& new.snapshots == old.snapshots
    &&& match spec_run_state(old.paused, old.step_until) {
        RunState::Paused => !new.paused && new.step_until == old.step_until,
        RunState::Stepping => new.paused && new.step_until is None,
        RunState::Running => new.paused && new.step_until == old.step_until,
    }
}

/// Is `new` the emulator after moving from `old` to the snapshot one step
/// older in `snapshots`, if there is one?
pub open spec fn restored_previous(snapshots: Seq<Snapshot>, old: GameBoy, new: GameBoy) -> bool {
    match previous_index(snapshot_ids(snapshots), old.clock.cycles.0) {
        Some(i) => new.same_state(&snapshots[i].0),
        None => new == old,
    }
}

/// Is `new` the emulator after moving from `old` to the snapshot one step
/// newer in `snapshots`, if there is one?
pub open spec fn restored_next(snapshots: Seq<Snapshot>, old: GameBoy, new: GameBoy) -> bool {
    match next_index(snapshot_ids(snapshots), old.clock.cycles.0) {
        Some(i) => new.same_state(&snapshots[i].0),
        None => new == old,
    }
}

/// Debugger enables pausing, stepping, and inspection
pub struct Debugger {
    /// When paused, the emulator doesn't advance at all
    pub paused: bool,
    /// Target clock cycle for stepping
    ///
    /// When this is set and `paused` is set, the run state is
    /// [RunState::Stepping]: the emulator is ticking, with the intention of
    /// stopping soon. This is cleared by [Self::check_breakpoints] once
    /// reached.
    pub step_until: Option<Cycles>,
    /// Triggers for when the debugger should be paused automatically
    ///
    /// No address occurs twice.
    pub breakpoints: Vec<Breakpoint>,
    /// Recent snapshots, most recent first
    ///
    /// At most [MAX_SNAPSHOTS], each for a different clock cycle. Snapshots
    /// are only taken while paused or stepping.
    pub snapshots: Vec<Snapshot>,
}

impl Debugger {
    /// Breakpoints are distinct; snapshots are few, distinct, and of
    /// well-formed emulators.
    pub open spec fn wf(&self) -> bool {
        &&& forall|i: int, j: int|
            0 <= i < j < self.breakpoints@.len() ==> self.breakpoints@[i] != self.breakpoints@[j]
        &&& self.snapshots@.len() <= MAX_SNAPSHOTS
        &&& distinct(snapshot_ids(self.snapshots@))
        &&& forall|i: int| 0 <= i < self.snapshots@.len() ==> (#[trigger] self.snapshots@[i]).0.wf()
    }

    /// The current run state
    pub open spec fn spec_state(&self) -> RunState {
        spec_run_state(self.paused, self.step_until)
    }

    /// The breakpoints as a set
    pub open spec fn breakpoint_set(&self) -> Set<Breakpoint> {
        self.breakpoints@.to_set()
    }

    /// A debugger that starts paused, with no breakpoints or snapshots
    pub fn new() -> (r: Self)
        ensures
            r.wf(),
            r.paused,
            r.step_until is None,
            r.breakpoints@.len() == 0,
            r.snapshots@.len() == 0,
    {
        Self { paused: true, step_until: None, breakpoints: Vec::new(), snapshots: Vec::new() }
    }

    /// Get the current [RunState]
    ///
    /// The ternary state determines whether the emulator should tick and the
    /// debugger should be shown.
    pub fn run_state(&self) -> (r: RunState)
        ensures
            r == self.spec_state(),
    {
        if self.paused {
            if self.step_until.is_some() {
                RunState::Stepping
            } else {
                RunState::Paused
            }
        } else {
            RunState::Running
        }
    }

    /// Get the saved snapshots, most recent first
    pub fn snapshots(&self) -> (r: &Vec<Snapshot>)
        ensures
            r@ == self.snapshots@,
    {
        &self.snapshots
    }
}

impl Debugger {
    /// Get the index of the snapshot matching the given emulator state
    ///
    /// This uses the clock cycle count as a unique identifier for each state.
    /// Return `None` if this state hasn't been snapshotted.
    #[verifier::spinoff_prover]
    pub fn get_snapshot_index(&self, emulator: &GameBoy) -> (r: Option<usize>)
        requires
            self.wf(),
        ensures
            r is Some <==> snapshot_ids(self.snapshots@).contains(emulator.clock.cycles.0),
            r matches Some(i) ==> i == position(snapshot_ids(self.snapshots@), emulator.clock.cycles.0),
    {
        let ghost ids = snapshot_ids(self.snapshots@);
        let mut k: usize = 0;
        while k < self.snapshots.len()
            invariant
                k <= self.snapshots@.len(),
                ids == snapshot_ids(self.snapshots@),
                distinct(ids),
                forall|i: int| 0 <= i < k ==> ids[i] != emulator.clock.cycles.0,
            decreases self.snapshots@.len() - k,
        {
            if self.snapshots[k].matches(emulator) {
                proof {
                    assert(ids[k as int] == emulator.clock.cycles.0);
                    lemma_position(ids, k as int);
                }
                return Some(k);
            }
            k = k + 1;
        }
        proof {
            assert(!ids.contains(emulator.clock.cycles.0));
        }
        None
    }

    /// Capture a snapshot of the current emulator state *if* actively
    /// debugging and the state isn't saved already
    ///
    /// The newest snapshot goes first. At capacity, the oldest is dropped.
    #[verifier::spinoff_prover]
    pub fn snapshot(&mut self, emulator: &GameBoy)
        requires
            old(self).wf(),
            emulator.wf(),
        ensures
            final(self).wf(),
            final(self).paused == old(self).paused,
            final(self).step_until == old(self).step_until,
            final(self).breakpoints == old(self).breakpoints,
            if old(self).spec_state() != RunState::Running && !snapshot_ids(old(self).snapshots@).contains(
                emulator.clock.cycles.0,
            ) {
                let kept = if old(self).snapshots@.len() == MAX_SNAPSHOTS {
                    old(self).snapshots@.drop_last()
                } else {
                    old(self).snapshots@
                };
                &&& final(self).snapshots@.len() == kept.len() + 1
                &&& final(self).snapshots@[0].0.same_state(emulator)
                &&& final(self).snapshots@.drop_first() == kept
            } else {
                final(self).snapshots@ == old(self).snapshots@
            },
    {
        // Only store snapshots while paused/stepping
        if self.run_state().is_debugging() && self.get_snapshot_index(emulator).is_none() {
            let ghost before = self.snapshots@;
            // If at capacity, drop the oldest first
            if self.snapshots.len() == MAX_SNAPSHOTS {
                self.snapshots.pop();
            }
            let ghost kept = self.snapshots@;
            let copy = emulator.clone();
            proof {
                lemma_same_state_wf(copy, *emulator);
            }
            self.snapshots.insert(0, Snapshot(copy));
            proof {
                assert(self.snapshots@.drop_first() =~= kept);
                let ids = snapshot_ids(self.snapshots@);
                let old_ids = snapshot_ids(before);
                assert forall|i: int| 0 <= i < kept.len() implies kept[i] == before[i] && #[trigger] snapshot_ids(kept)[i] == old_ids[i] by {}
                assert forall|i: int, j: int| 0 <= i < j < ids.len() implies ids[i] != ids[j] by {
                    if i == 0 {
                        assert(ids[j] == old_ids[j - 1]);
                        assert(old_ids.contains(ids[j]));
                    } else {
                        assert(ids[i] == old_ids[i - 1]);
                        assert(ids[j] == old_ids[j - 1]);
                    }
                }
                assert forall|i: int| 0 <= i < self.snapshots@.len() implies (#[trigger] self.snapshots@[i]).0.wf() by {
                    if i > 0 {
                        assert(self.snapshots@[i] == before[i - 1]);
                    }
                }
            }
        }
    }

    /// Restore the snapshot before (older than) the emulator's state in the
    /// history list
    ///
    /// If the state isn't in the list, or it's the oldest available, do
    /// nothing.
    #[verifier::spinoff_prover]
    pub fn previous_snapshot(&mut self, emulator: &mut GameBoy)
        requires
            old(self).wf(),
            old(emulator).wf(),
        ensures
            *final(self) == *old(self),
            final(emulator).wf(),
            restored_previous(old(self).snapshots@, *old(emulator), *final(emulator)),
    {
        // Front is the most recent; +1 goes toward the back
        match self.get_snapshot_index(emulator) {
            Some(current) => {
                if current + 1 < self.snapshots.len() {
                    let copy = self.snapshots[current + 1].0.clone();
                    proof {
                        lemma_same_state_wf(copy, self.snapshots@[current + 1].0);
                    }
                    *emulator = copy;
                }
            },
            None => {},
        }
    }

    /// Restore the snapshot after (newer than) the emulator's state in the
    /// history list
    ///
    /// If the state isn't in the list, or it's the most recent available, do
    /// nothing.
    #[verifier::spinoff_prover]
    pub fn next_snapshot(&mut self, emulator: &mut GameBoy)
        requires
            old(self).wf(),
            old(emulator).wf(),
        ensures
            *final(self) == *old(self),
            final(emulator).wf(),
            restored_next(old(self).snapshots@, *old(emulator), *final(emulator)),
    {
        // Front is the most recent; -1 goes toward the front
        match self.get_snapshot_index(emulator) {
            Some(current) => {
                if current >= 1 {
                    let copy = self.snapshots[current - 1].0.clone();
                    proof {
                        lemma_same_state_wf(copy, self.snapshots@[current - 1].0);
                    }
                    *emulator = copy;
                }
            },
            None => {},
        }
    }

    /// Get a list of currently set breakpoints
    pub fn breakpoints(&self) -> (r: Vec<Breakpoint>)
        ensures
            r@ == self.breakpoints@,
    {
        let r = self.breakpoints.clone();
        assert(r@ =~= self.breakpoints@);
        r
    }

    /// Set a breakpoint at the given address
    ///
    /// When the CPU reaches this address (i.e. when `pc == address`), the
    /// debugger will pause. Setting one that is already set does nothing.
    #[verifier::spinoff_prover]
    pub fn set_breakpoint(&mut self, address: Address)
        requires
            old(self).wf(),
        ensures
            final(self).wf(),
            final(self).breakpoint_set() == old(self).breakpoint_set().insert(Breakpoint { address }),
            final(self).paused == old(self).paused,
            final(self).step_until == old(self).step_until,
            final(self).snapshots == old(self).snapshots,
    {
        let breakpoint = Breakpoint::new(address);
        let mut k: usize = 0;
        while k < self.breakpoints.len()
            invariant
                self.wf(),
                breakpoint == (Breakpoint { address }),
                k <= self.breakpoints@.len(),
                forall|i: int| 0 <= i < k ==> self.breakpoints@[i] != breakpoint,
            decreases self.breakpoints@.len() - k,
        {
            if self.breakpoints[k].address.0 == address.0 {
                proof {
                    assert(self.breakpoints@[k as int] == breakpoint);
                    assert(self.breakpoints@.contains(breakpoint));
                    assert(self.breakpoints@.to_set().contains(breakpoint));
                    assert(self.breakpoint_set().insert(breakpoint) =~= self.breakpoint_set());
                }
                return;
            }
            k = k + 1;
        }
        let ghost before = self.breakpoints@;
        self.breakpoints.push(breakpoint);
        proof {
            assert(self.breakpoints@ == before.push(breakpoint));
            assert(self.breakpoints@.to_set() =~= before.to_set().insert(breakpoint)) by {
                assert forall|b: Breakpoint| self.breakpoints@.to_set().contains(b) <==> before.to_set().insert(breakpoint).contains(b) by {
                    if self.breakpoints@.contains(b) {
                        let i = choose|i: int| 0 <= i < self.breakpoints@.len() && self.breakpoints@[i] == b;
                        if i < before.len() {
                            assert(before[i] == b);
                        }
                    }
                    if before.contains(b) {
                        let i = choose|i: int| 0 <= i < before.len() && before[i] == b;
                        assert(self.breakpoints@[i] == b);
                    }
                    if b == breakpoint {
                        assert(self.breakpoints@[before.len() as int] == b);
                    }
                }
            }
        }
    }

    /// Check all registered breakpoints and pause the debugger if any have
    /// been triggered
    ///
    /// This should be called on each cycle. Once the stepping target is
    /// reached it is cleared.
    pub fn check_breakpoints(&mut self, emulator: &GameBoy)
        requires
            old(self).wf(),
        ensures
            final(self).wf(),
            final(self).step_until == (if old(self).step_until matches Some(cy) && emulator.clock.cycles.0
                >= cy.0 {
                None
            } else {
                old(self).step_until
            }),
            final(self).paused == (old(self).paused || old(self).breakpoint_set().contains(
                Breakpoint { address: emulator.cpu.registers.pc },
            )),
            final(self).breakpoints == old(self).breakpoints,
            final(self).snapshots == old(self).snapshots,
    {
        // Clear step_until once we hit it
        match self.step_until {
            Some(cy) => {
                if emulator.clock().cycles().0 >= cy.0 {
                    self.step_until = None;
                }
            },
            None => {},
        }
        let pc = Breakpoint::new(emulator.cpu().registers().pc());
        let mut k: usize = 0;
        let mut hit = false;
        while k < self.breakpoints.len()
            invariant
                k <= self.breakpoints@.len(),
                hit <==> exists|i: int| 0 <= i < k && self.breakpoints@[i] == pc,
            decreases self.breakpoints@.len() - k,
        {
            if self.breakpoints[k].address.0 == pc.address.0 {
                hit = true;
            }
            k = k + 1;
        }
        proof {
            if self.breakpoints@.contains(pc) {
                let i = choose|i: int| 0 <= i < self.breakpoints@.len() && self.breakpoints@[i] == pc;
                assert(hit);
            }
        }
        if hit {
            self.paused = true;
        }
    }

    /// Toggle pause state
    ///
    /// While stepping, toggling means "stop stepping".
    pub fn toggle_pause(&mut self)
        requires
            old(self).wf(),
        ensures
            final(self).wf(),
            toggled(*old(self), *final(self)),
    {
        self.paused = match self.run_state() {
            RunState::Paused => false,
            RunState::Stepping => {
                self.step_until = None;
                true
            },
            RunState::Running => true,
        };
    }

    /// Step forward one clock cycle
    pub fn step_cycle(&mut self, emulator: &GameBoy)
        requires
            emulator.clock.cycles.0 < u64::MAX,
        ensures
            *final(self) == (Debugger { step_until: Some(Cycles((emulator.clock.cycles.0 + 1) as u64)), ..*old(self) }),
    {
        self.step_until(emulator.clock().cycles().incr());
    }

    /// Step forward to the end of the current frame
    pub fn step_frame(&mut self, emulator: &GameBoy)
        requires
            spec_next_frame_end(emulator.clock.cycles.0 as int) <= u64::MAX,
        ensures
            *final(self) == (Debugger {
                step_until: Some(Cycles(spec_next_frame_end(emulator.clock.cycles.0 as int) as u64)),
                ..*old(self)
            }),
    {
        self.step_until(Clock::next_frame_end(emulator.clock().cycles()));
    }

    /// Step forward to the end of the current CPU instruction
    pub fn step_instruction(&mut self, emulator: &GameBoy)
        ensures
            *final(self) == (Debugger { step_until: Some(emulator.cpu.current_instruction.end), ..*old(self) }),
    {
        self.step_until(emulator.cpu().current_instruction().end);
    }

    /// Set the `step_until` field, which will step forward **without
    /// unpausing** until the target clock cycle is reached.
    fn step_until(&mut self, target: Cycles)
        ensures
            *final(self) == (Debugger { step_until: Some(target), ..*old(self) }),
    {
        self.step_until = Some(target);
    }
}

} // verus!
