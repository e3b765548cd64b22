//! Per-key debounce/idle state machine.
//!
//! Each matrix cell turns the raw level read every scan cycle into a
//! confirmed On/Off classification. A raw level that disagrees with the
//! confirmed state must persist for a configured number of scan cycles (the
//! debounce window) before the confirmed state flips; any agreeing reading
//! inside the window resets the accumulated evidence. A confirmed-Off cell
//! whose raw level has not disagreed for a configured number of cycles is
//! marked idle.

use vstd::prelude::*;

verus! {

/// Confirmed state of one key.
#[derive(Clone, Copy, Debug, PartialEq, Eq, Structural)]
pub enum State {
    /// The key is pressed.
    On,
    /// The key is released.
    Off,
}

/// Debounce cell of one matrix position.
#[derive(Clone, Copy, Debug, PartialEq, Eq, Structural)]
pub struct KeyState {
    /// Confirmed state, changed only after a full debounce window.
    pub state: State,
    /// Whether the cell is idle; meaningful only while `state` is `Off`.
    pub idle: bool,
    /// Scan cycles since the last confirmed transition (saturating).
    pub cycles_since_state_change: u32,
    /// Consecutive cycles the raw level has disagreed with `state`.
    pub pending: u32,
    /// Consecutive cycles the raw level has agreed with a confirmed `Off`.
    pub stable_off: u32,
}

/// A counter bumped once per scan cycle, held at the top of its range.
pub open spec fn sat_inc(x: u32) -> u32 {
    if x == u32::MAX {
        x
    } else {
        (x + 1) as u32
    }
}

/// One debounce step: the cell after observing `level` for one scan cycle,
/// with a debounce window of `debounce_cycles` and an idle mark after
/// `idle_cycles` undisturbed cycles.
pub open spec fn debounce_step(k: KeyState, level: bool, debounce_cycles: u32, idle_cycles: u32) -> KeyState {
    let disagree = level != (k.state == State::On);
    if disagree {
        let p = sat_inc(k.pending);
        if p >= debounce_cycles {
            // Evidence has persisted for the whole window: flip.
            KeyState {
                state: if k.state == State::On { State::Off } else { State::On },
                idle: false,
                cycles_since_state_change: 0,
                pending: 0,
                stable_off: 0,
            }
        } else {
            KeyState {
                state: k.state,
                idle: if k.state == State::Off { false } else { k.idle },
                cycles_since_state_change: sat_inc(k.cycles_since_state_change),
                pending: p,
                stable_off: 0,
            }
        }
    } else {
        if k.state == State::Off {
            let s = sat_inc(k.stable_off);
            KeyState {
                state: State::Off,
                idle: k.idle || s >= idle_cycles,
                cycles_since_state_change: sat_inc(k.cycles_since_state_change),
                pending: 0,
                stable_off: s,
            }
        } else {
            KeyState {
                state: State::On,
                idle: k.idle,
                cycles_since_state_change: sat_inc(k.cycles_since_state_change),
                pending: 0,
                stable_off: 0,
            }
        }
    }
}

/// The cell every matrix position starts in.
pub open spec fn initial_key_state() -> KeyState {
    KeyState {
        state: State::Off,
        idle: true,
        cycles_since_state_change: 0,
        pending: 0,
        stable_off: 0,
    }
}

/// The cell after observing a sequence of raw levels, one per scan cycle,
/// oldest first.
pub open spec fn debounce_run(k: KeyState, levels: Seq<bool>, debounce_cycles: u32, idle_cycles: u32) -> KeyState
    decreases levels.len(),
{
    if levels.len() == 0 {
        k
    } else {
        debounce_step(
            debounce_run(k, levels.drop_last(), debounce_cycles, idle_cycles),
            levels.last(),
            debounce_cycles,
            idle_cycles,
        )
    }
}

/// The confirmed state opposite to `s`.
pub open spec fn flipped(s: State) -> State {
    if s == State::On {
        State::Off
    } else {
        State::On
    }
}

/// Stability law: a cell with no pending evidence that observes a steadily
/// disagreeing raw level confirms the opposite state exactly once, at the end
/// of the debounce window. After `j` such cycles the confirmed state is still
/// the old one with `j` cycles of evidence while `j` is inside the window,
/// and is the flipped one from the moment the window is reached, with the
/// cycles-since-transition counter showing the single flip.
pub proof fn lemma_debounce_stable_level(k: KeyState, level: bool, debounce_cycles: u32, idle_cycles: u32, levels: Seq<bool>, j: int)
    requires
        debounce_cycles >= 1,
        level != (k.state == State::On),
        k.pending == 0,
        levels.len() < u32::MAX,
        forall|i: int| 0 <= i < levels.len() ==> levels[i] == level,
        0 <= j <= levels.len(),
    ensures
        ({
            let r = debounce_run(k, levels.take(j), debounce_cycles, idle_cycles);
            &&& j < debounce_cycles ==> r.state == k.state && r.pending == j
            &&& j >= debounce_cycles ==> r.state == flipped(k.state) && r.pending == 0
                && r.cycles_since_state_change == j - debounce_cycles
        }),
    decreases j,
{
    if j > 0 {
        lemma_debounce_stable_level(k, level, debounce_cycles, idle_cycles, levels, j - 1);
        assert(levels.take(j).drop_last() =~= levels.take(j - 1));
        assert(levels.take(j).last() == levels[j - 1]);
    }
}

/// Blip law: a disagreeing raw level that does not persist for the whole
/// debounce window produces no confirmed transition, and the first agreeing
/// reading resets the pending evidence to zero.
pub proof fn lemma_debounce_blip(k: KeyState, level: bool, debounce_cycles: u32, idle_cycles: u32, levels: Seq<bool>)
    requires
        debounce_cycles >= 1,
        level != (k.state == State::On),
        k.pending == 0,
        levels.len() >= 1,
        levels.len() < u32::MAX,
        levels.len() - 1 < debounce_cycles,
        forall|i: int| 0 <= i < levels.len() - 1 ==> levels[i] == level,
        levels.last() == (k.state == State::On),
    ensures
        debounce_run(k, levels, debounce_cycles, idle_cycles).state == k.state,
        debounce_run(k, levels, debounce_cycles, idle_cycles).pending == 0,
        forall|j: int| 0 <= j <= levels.len()
            ==> (#[trigger] debounce_run(k, levels.take(j), debounce_cycles, idle_cycles)).state
                == k.state,
{
    let m = levels.len() - 1;
    assert forall|j: int| 0 <= j <= m implies (#[trigger] debounce_run(
        k,
        levels.take(j),
        debounce_cycles,
        idle_cycles,
    )).state == k.state by {
        lemma_debounce_stable_level(k, level, debounce_cycles, idle_cycles, levels.take(m), j);
        assert(levels.take(m).take(j) =~= levels.take(j));
    }
    lemma_debounce_stable_level(k, level, debounce_cycles, idle_cycles, levels.take(m), m);
    assert(levels.take(m).take(m) =~= levels.take(m));
    assert(levels.take(levels.len() as int) =~= levels);
    assert(levels.take(levels.len() as int).drop_last() =~= levels.take(m));
}

impl KeyState {
    /// A cell in its power-on state: confirmed Off and idle, with no
    /// evidence accumulated.
    pub fn new() -> (r: KeyState)
        ensures
            r == initial_key_state(),
    {
        KeyState {
            state: State::Off,
            idle: true,
            cycles_since_state_change: 0,
            pending: 0,
            stable_off: 0,
        }
    }

    /// Record the raw level of one scan cycle and return the confirmed
    /// state, the idle flag, and the cycles since the last confirmed
    /// transition.
    pub fn record(&mut self, level: bool, debounce_cycles: u32, idle_cycles: u32) -> (r: (State, bool, u32))
        ensures
            *final(self) == debounce_step(*old(self), level, debounce_cycles, idle_cycles),
            r == (final(self).state, final(self).idle, final(self).cycles_since_state_change),
    {
        let disagree = level != (self.state == State::On);
        if disagree {
            let p = self.pending.saturating_add(1);
            if p >= debounce_cycles {
                self.state = if self.state == State::On { State::Off } else { State::On };
                self.idle = false;
                self.cycles_since_state_change = 0;
                self.pending = 0;
                self.stable_off = 0;
            } else {
                if self.state == State::Off {
                    self.idle = false;
                }
                self.cycles_since_state_change = self.cycles_since_state_change.saturating_add(1);
                self.pending = p;
                self.stable_off = 0;
            }
        } else {
            self.pending = 0;
            self.cycles_since_state_change = self.cycles_since_state_change.saturating_add(1);
            if self.state == State::Off {
                let s = self.stable_off.saturating_add(1);
                if s >= idle_cycles {
                    self.idle = true;
                }
                self.stable_off = s;
            } else {
                self.stable_off = 0;
            }
        }
        (self.state, self.idle, self.cycles_since_state_change)
    }
}

} // verus!
