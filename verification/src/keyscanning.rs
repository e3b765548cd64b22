//! Matrix scanning: column strobing, row sensing, and per-cell debouncing.
//!
//! The matrix drives one column at a time. Between strobes every row sense
//! line is drained to remove stray charge left by the previous column, so one
//! column's reading cannot corrupt the next. Each row level read while a
//! column is strobed is fed to that cell's debounce state machine, and the
//! classified events for the whole column are returned together.
//!
//! The column and row lines are abstract capabilities: any pin type that can
//! drive a level, or be read and drained, can back a matrix. Hardware faults
//! are propagated unchanged; the scanner never retries.

use vstd::prelude::*;

pub use crate::state::{KeyState, State};

use crate::state::{debounce_step, initial_key_state};

verus! {

/// A column drive line: can be driven active or inactive.
pub trait ColumnDrive<E> {
    /// Drive the column active (strobed).
    fn set_active(&mut self) -> Result<(), E>;

    /// Drive the column inactive.
    fn set_inactive(&mut self) -> Result<(), E>;
}

/// A row sense line: can be read, and drained of residual charge by briefly
/// sinking it as an output before reconfiguring it back to an input.
pub trait RowSense<E> {
    /// Sink the line low and return it to input mode.
    fn drain(&mut self) -> Result<(), E>;

    /// Read the current digital level; true is the active level.
    fn read_level(&self) -> Result<bool, E>;
}

/// Classified momentary push-button event. Cycles convert to time by
/// multiplying by the scan period.
#[derive(Clone, Copy, Debug, PartialEq, Eq, Structural)]
pub enum KeyEvent {
    /// The key is confirmed pressed.
    On {
        /// Scan cycles since the last confirmed state change.
        cycles_since_state_change: u32,
    },
    /// The key is confirmed released.
    Off {
        /// The key is idle (a key can only be idle in the off state).
        idle: bool,
        /// Scan cycles since the last confirmed state change.
        cycles_since_state_change: u32,
    },
}

/// The event a debounce cell reports.
pub open spec fn event_of(k: KeyState) -> KeyEvent {
    if k.state == State::On {
        KeyEvent::On { cycles_since_state_change: k.cycles_since_state_change }
    } else {
        KeyEvent::Off { idle: k.idle, cycles_since_state_change: k.cycles_since_state_change }
    }
}

/// The new cell came from the old one by one debounce step on some raw level.
pub open spec fn cell_stepped(prev: KeyState, cur: KeyState, debounce_cycles: u32, idle_cycles: u32) -> bool {
    exists|b: bool| cur == debounce_step(prev, b, debounce_cycles, idle_cycles)
}

/// One strobe advance: the next column index, wrapping from the last column
/// back to column 0.
pub open spec fn strobe_step(s: int, csize: int) -> int {
    if s + 1 >= csize {
        0
    } else {
        s + 1
    }
}

/// The strobe index after `k` advances from `s`.
pub open spec fn strobe_after(s: int, k: nat, csize: int) -> int
    decreases k,
{
    if k == 0 {
        s
    } else {
        strobe_step(strobe_after(s, (k - 1) as nat, csize), csize)
    }
}

/// Up to one full revolution, advancing the strobe adds the advance count,
/// less one wrap.
pub proof fn lemma_strobe_after_linear(s: int, k: nat, csize: int)
    requires
        0 <= s < csize,
        k <= csize,
    ensures
        strobe_after(s, k, csize) == if s + k < csize {
            s + k
        } else {
            s + k - csize
        },
    decreases k,
{
    if k > 0 {
        lemma_strobe_after_linear(s, (k - 1) as nat, csize);
    }
}

/// Strobing is circular: advancing as many times as there are columns
/// returns to the starting column.
pub proof fn lemma_strobe_cycle(s: int, csize: int)
    requires
        0 <= s < csize,
    ensures
        strobe_after(s, csize as nat, csize) == s,
{
    lemma_strobe_after_linear(s, csize as nat, csize);
}

/// Scanner and debouncer of one key matrix: column drive lines, row sense
/// lines, the current strobe index and one debounce cell per key.
pub struct Matrix<C, R> {
    /// Strobe lines (columns).
    cols: Vec<C>,
    /// Sense lines (rows).
    rows: Vec<R>,
    /// Column currently strobed.
    cur_strobe: usize,
    /// Debounce cells, row-major: cell of column `c`, row `r` is at
    /// `c * rows.len() + r`.
    state_matrix: Vec<KeyState>,
    /// Scan cycles a contrary raw level must persist before a confirmed flip.
    debounce_cycles: u32,
    /// Scan cycles without disagreement after which an off key is idle.
    idle_cycles: u32,
}

impl<C, R> Matrix<C, R> {
    /// Number of columns.
    pub closed spec fn csize(&self) -> nat {
        self.cols@.len()
    }

    /// Number of rows.
    pub closed spec fn rsize(&self) -> nat {
        self.rows@.len()
    }

    /// The column currently strobed.
    pub closed spec fn spec_strobe(&self) -> usize {
        self.cur_strobe
    }

    /// The debounce cells, row-major.
    pub closed spec fn cells(&self) -> Seq<KeyState> {
        self.state_matrix@
    }

    /// Configured debounce window, in scan cycles.
    pub closed spec fn spec_debounce_cycles(&self) -> u32 {
        self.debounce_cycles
    }

    /// Configured idle marking time, in scan cycles.
    pub closed spec fn spec_idle_cycles(&self) -> u32 {
        self.idle_cycles
    }

    /// The matrix has at least one column and one row, one cell per key, and
    /// a strobe index inside the columns.
    pub closed spec fn wf(&self) -> bool {
        &&& self.cols@.len() >= 1
        &&& self.rows@.len() >= 1
        &&& self.state_matrix@.len() == self.cols@.len() * self.rows@.len()
        &&& self.cur_strobe < self.cols@.len()
    }

    /// The dimensions and configuration of two matrix values agree.
    pub open spec fn same_shape(&self, other: &Self) -> bool {
        &&& self.csize() == other.csize()
        &&& self.rsize() == other.rsize()
        &&& self.cells().len() == other.cells().len()
        &&& self.spec_debounce_cycles() == other.spec_debounce_cycles()
        &&& self.spec_idle_cycles() == other.spec_idle_cycles()
    }

    /// Build a matrix from its column and row lines, drive every column
    /// inactive, and set the strobe index one before the first column so the
    /// first advance lands on column 0. Fails only when a column line fails.
    pub fn new<E>(cols: Vec<C>, rows: Vec<R>, debounce_cycles: u32, idle_cycles: u32) -> (r: Result<Matrix<C, R>, E>) where
        C: ColumnDrive<E>,

        requires
            cols@.len() >= 1,
            rows@.len() >= 1,
            cols@.len() * rows@.len() <= usize::MAX,
        ensures
            r matches Ok(m) ==> {
                &&& m.wf()
                &&& m.csize() == cols@.len()
                &&& m.rsize() == rows@.len()
                &&& m.spec_strobe() == cols@.len() - 1
                &&& m.cells() == Seq::new((cols@.len() * rows@.len()) as nat, |i: int| initial_key_state())
                &&& m.spec_debounce_cycles() == debounce_cycles
                &&& m.spec_idle_cycles() == idle_cycles
            },
    {
        let csize = cols.len();
        let rsize = rows.len();
        let msize = csize * rsize;
        let mut cells: Vec<KeyState> = Vec::new();
        let mut i: usize = 0;
        while i < msize
            invariant
                i <= msize,
                cells@.len() == i,
                forall|j: int| 0 <= j < i ==> cells@[j] == initial_key_state(),
            decreases msize - i,
        {
            cells.push(KeyState::new());
            i = i + 1;
        }
        proof {
            assert(cells@ =~= Seq::new((cols@.len() * rows@.len()) as nat, |i: int| initial_key_state()));
        }

        let mut res = Matrix {
            cols,
            rows,
            cur_strobe: csize - 1,
            state_matrix: cells,
            debounce_cycles,
            idle_cycles,
        };

        // Reset the strobe position and make sure all strobes are off.
        match res.clear() {
            Ok(()) => Ok(res),
            Err(e) => Err(e),
        }
    }

    /// Drive every column inactive and reset the strobe index to the
    /// pre-first position, so the next advance lands on column 0. Used for
    /// re-initialization; the debounce cells are kept.
    pub fn clear<E>(&mut self) -> (r: Result<(), E>) where
        C: ColumnDrive<E>,

        requires
            old(self).wf(),
        ensures
            final(self).wf(),
            final(self).same_shape(old(self)),
            final(self).cells() == old(self).cells(),
            r is Ok ==> final(self).spec_strobe() == old(self).csize() - 1,
            r is Err ==> final(self).spec_strobe() == old(self).spec_strobe(),
    {
        // Clear all strobes.
        let csize = self.cols.len();
        let mut i: usize = 0;
        while i < csize
            invariant
                i <= csize,
                csize == self.cols@.len(),
                self.cols@.len() == old(self).cols@.len(),
                self.rows == old(self).rows,
                self.state_matrix == old(self).state_matrix,
                self.cur_strobe == old(self).cur_strobe,
                self.debounce_cycles == old(self).debounce_cycles,
                self.idle_cycles == old(self).idle_cycles,
                old(self).wf(),
            decreases csize - i,
        {
            match self.cols[i].set_inactive() {
                Ok(()) => {},
                Err(e) => {
                    return Err(e);
                },
            }
            i = i + 1;
        }

        // Reset the strobe position.
        self.cur_strobe = csize - 1;
        Ok(())
    }

    /// The column currently strobed.
    pub fn strobe(&self) -> (r: usize)
        ensures
            r == self.spec_strobe(),
    {
        self.cur_strobe
    }

    /// Advance the strobe: deactivate the current column, drain every row
    /// sense line, advance the strobe index circularly and activate the new
    /// column. Returns the new index.
    pub fn next_strobe<E>(&mut self) -> (r: Result<usize, E>) where
        C: ColumnDrive<E>,
        R: RowSense<E>,

        requires
            old(self).wf(),
        ensures
            final(self).wf(),
            final(self).same_shape(old(self)),
            final(self).cells() == old(self).cells(),
            r matches Ok(i) ==> {
                &&& i == final(self).spec_strobe()
                &&& i == strobe_step(old(self).spec_strobe() as int, old(self).csize() as int)
            },
            r is Err ==> (final(self).spec_strobe() == old(self).spec_strobe()
                || final(self).spec_strobe() == strobe_step(old(self).spec_strobe() as int, old(self).csize() as int)),
    {
        let csize = self.cols.len();

        // Unset the current strobe.
        match self.cols[self.cur_strobe].set_inactive() {
            Ok(()) => {},
            Err(e) => {
                return Err(e);
            },
        }

        // Drain stray potential from the sense lines.
        let rsize = self.rows.len();
        let mut i: usize = 0;
        while i < rsize
            invariant
                i <= rsize,
                rsize == self.rows@.len(),
                self.rows@.len() == old(self).rows@.len(),
                self.cols@.len() == old(self).cols@.len(),
                self.state_matrix == old(self).state_matrix,
                self.cur_strobe == old(self).cur_strobe,
                self.debounce_cycles == old(self).debounce_cycles,
                self.idle_cycles == old(self).idle_cycles,
                old(self).wf(),
            decreases rsize - i,
        {
            match self.rows[i].drain() {
                Ok(()) => {},
                Err(e) => {
                    return Err(e);
                },
            }
            i = i + 1;
        }

        // Check for the roll-over condition.
        if self.cur_strobe >= csize - 1 {
            self.cur_strobe = 0;
        } else {
            self.cur_strobe = self.cur_strobe + 1;
        }

        // Set the new strobe.
        match self.cols[self.cur_strobe].set_active() {
            Ok(()) => {},
            Err(e) => {
                return Err(e);
            },
        }

        Ok(self.cur_strobe)
    }

    /// Sense the currently strobed column: read every row level, feed it to
    /// that cell's debounce state machine and return the classified events,
    /// one per row. The raw levels come from the hardware, so the contract
    /// promises only that each strobed cell took one debounce step on some
    /// level and that its event reports the resulting cell.
    pub fn sense<E>(&mut self) -> (r: Result<Vec<KeyEvent>, E>) where
        R: RowSense<E>,

        requires
            old(self).wf(),
        ensures
            final(self).wf(),
            final(self).same_shape(old(self)),
            final(self).spec_strobe() == old(self).spec_strobe(),
            r matches Ok(evs) ==> {
                let base = old(self).spec_strobe() * old(self).rsize();
                let d = old(self).spec_debounce_cycles();
                let ic = old(self).spec_idle_cycles();
                &&& evs@.len() == old(self).rsize()
                &&& forall|j: int| 0 <= j < old(self).rsize() ==> {
                    &&& cell_stepped(old(self).cells()[base + j], final(self).cells()[base + j], d, ic)
                    &&& #[trigger] evs@[j] == event_of(final(self).cells()[base + j])
                }
                &&& forall|k: int| 0 <= k < old(self).cells().len() && !(base <= k < base + old(self).rsize())
                    ==> final(self).cells()[k] == #[trigger] old(self).cells()[k]
            },
            r is Err ==> forall|k: int| 0 <= k < old(self).cells().len()
                ==> (final(self).cells()[k] == #[trigger] old(self).cells()[k]
                    || cell_stepped(old(self).cells()[k], final(self).cells()[k],
                        old(self).spec_debounce_cycles(), old(self).spec_idle_cycles())),
    {
        let rsize = self.rows.len();
        let msize = self.state_matrix.len();
        proof {
            assert(self.cur_strobe as int * rsize as int + rsize <= msize) by (nonlinear_arith)
                requires
                    self.cur_strobe < self.cols@.len(),
                    rsize == self.rows@.len(),
                    msize == self.cols@.len() * self.rows@.len(),
            ;
        }
        let base = self.cur_strobe * rsize;
        let mut res: Vec<KeyEvent> = Vec::new();
        let mut i: usize = 0;
        while i < rsize
            invariant
                i <= rsize,
                rsize == self.rows@.len(),
                base == self.cur_strobe * rsize,
                base + rsize <= msize,
                msize == self.state_matrix@.len(),
                self.rows@.len() == old(self).rows@.len(),
                self.cols == old(self).cols,
                self.state_matrix@.len() == old(self).state_matrix@.len(),
                self.cur_strobe == old(self).cur_strobe,
                self.debounce_cycles == old(self).debounce_cycles,
                self.idle_cycles == old(self).idle_cycles,
                old(self).wf(),
                res@.len() == i,
                forall|j: int| 0 <= j < i ==> {
                    &&& cell_stepped(old(self).state_matrix@[base + j], self.state_matrix@[base + j],
                        self.debounce_cycles, self.idle_cycles)
                    &&& #[trigger] res@[j] == event_of(self.state_matrix@[base + j])
                },
                forall|k: int| 0 <= k < msize && !(base <= k < base + i)
                    ==> self.state_matrix@[k] == #[trigger] old(self).state_matrix@[k],
                forall|k: int| 0 <= k < msize
                    ==> (#[trigger] self.state_matrix@[k] == old(self).state_matrix@[k]
                        || cell_stepped(old(self).state_matrix@[k], self.state_matrix@[k],
                            self.debounce_cycles, self.idle_cycles)),
            decreases rsize - i,
        {
            // Read the GPIO level of this row.
            let level = match self.rows[i].read_level() {
                Ok(b) => b,
                Err(e) => {
                    return Err(e);
                },
            };

            // Record the level and classify through the debounce machine.
            let index = base + i;
            let mut cell = self.state_matrix[index];
            let ghost prev_cell = cell;
            let (keystate, idle, cycles_since_state_change) = cell.record(
                level,
                self.debounce_cycles,
                self.idle_cycles,
            );
            self.state_matrix.set(index, cell);
            proof {
                assert(cell == debounce_step(prev_cell, level, self.debounce_cycles, self.idle_cycles));
            }

            // Assign the event from the confirmed state.
            let ev = if keystate == State::On {
                KeyEvent::On { cycles_since_state_change }
            } else {
                KeyEvent::Off { idle, cycles_since_state_change }
            };
            res.push(ev);
            i = i + 1;
        }
        Ok(res)
    }
}

} // verus!
