//! Tests of the matrix scanner and the per-key debounce state machine.

use kiibohd_core::keyscanning::{ColumnDrive, KeyEvent, Matrix, RowSense};
use kiibohd_core::state::{KeyState, State};

/// A column line that records how it was last driven.
struct MockCol {
    active: bool,
}

impl ColumnDrive<u8> for MockCol {
    fn set_active(&mut self) -> Result<(), u8> {
        self.active = true;
        Ok(())
    }

    fn set_inactive(&mut self) -> Result<(), u8> {
        self.active = false;
        Ok(())
    }
}

/// A column line whose driver always fails.
struct BrokenCol;

impl ColumnDrive<u8> for BrokenCol {
    fn set_active(&mut self) -> Result<(), u8> {
        Err(7)
    }

    fn set_inactive(&mut self) -> Result<(), u8> {
        Err(7)
    }
}

/// A row line that always reads the same level.
struct MockRow {
    level: bool,
}

impl RowSense<u8> for MockRow {
    fn drain(&mut self) -> Result<(), u8> {
        Ok(())
    }

    fn read_level(&self) -> Result<bool, u8> {
        Ok(self.level)
    }
}

fn cols(n: usize) -> Vec<MockCol> {
    (0..n).map(|_| MockCol { active: false }).collect()
}

fn rows(n: usize, level: bool) -> Vec<MockRow> {
    (0..n).map(|_| MockRow { level }).collect()
}

#[test]
fn strobe_sequence_wraps_circularly() {
    let mut m: Matrix<MockCol, MockRow> = Matrix::new(cols(3), rows(2, false), 2, 10).unwrap();
    // A fresh matrix strobes column 0 first, and wraps after the last column.
    let seq: Vec<usize> = (0..6).map(|_| m.next_strobe().unwrap()).collect();
    assert_eq!(seq, vec![0, 1, 2, 0, 1, 2]);
}

#[test]
fn clear_resets_strobe_position() {
    let mut m: Matrix<MockCol, MockRow> = Matrix::new(cols(3), rows(2, false), 2, 10).unwrap();
    assert_eq!(m.next_strobe().unwrap(), 0);
    assert_eq!(m.next_strobe().unwrap(), 1);
    m.clear().unwrap();
    // After a clear the very next strobe lands on column 0 again.
    assert_eq!(m.strobe(), 2);
    assert_eq!(m.next_strobe().unwrap(), 0);
    assert_eq!(m.strobe(), 0);
}

#[test]
fn new_fails_on_broken_column_driver() {
    let broken: Vec<BrokenCol> = vec![BrokenCol, BrokenCol];
    let r: Result<Matrix<BrokenCol, MockRow>, u8> = Matrix::new(broken, rows(2, false), 2, 10);
    assert_eq!(r.err(), Some(7));
}

#[test]
fn sense_reports_one_event_per_row() {
    // Debounce window of one cycle: a single reading confirms.
    let mut m: Matrix<MockCol, MockRow> = Matrix::new(cols(2), rows(3, true), 1, 10).unwrap();
    m.next_strobe().unwrap();
    let evs = m.sense().unwrap();
    assert_eq!(evs.len(), 3);
    for ev in evs {
        assert_eq!(ev, KeyEvent::On { cycles_since_state_change: 0 });
    }
}

#[test]
fn sense_debounces_across_cycles() {
    // Debounce window of two cycles: the first disagreeing reading is only
    // pending evidence.
    let mut m: Matrix<MockCol, MockRow> = Matrix::new(cols(1), rows(1, true), 2, 100).unwrap();
    m.next_strobe().unwrap();
    let evs = m.sense().unwrap();
    assert_eq!(evs[0], KeyEvent::Off { idle: false, cycles_since_state_change: 1 });
    // The second consecutive reading confirms the press.
    m.next_strobe().unwrap();
    let evs = m.sense().unwrap();
    assert_eq!(evs[0], KeyEvent::On { cycles_since_state_change: 0 });
}

#[test]
fn cells_are_tracked_per_column() {
    // Two columns, one row, immediate debounce: each column's cell debounces
    // independently at index column * row_count + row.
    let mut m: Matrix<MockCol, MockRow> = Matrix::new(cols(2), rows(1, true), 1, 100).unwrap();
    assert_eq!(m.next_strobe().unwrap(), 0);
    // Column 0's cell confirms its press now.
    assert_eq!(m.sense().unwrap()[0], KeyEvent::On { cycles_since_state_change: 0 });
    assert_eq!(m.next_strobe().unwrap(), 1);
    // Column 1's cell is fresh, so it confirms now too.
    assert_eq!(m.sense().unwrap()[0], KeyEvent::On { cycles_since_state_change: 0 });
    assert_eq!(m.next_strobe().unwrap(), 0);
    // Back on column 0: its cell kept its state and aged one cycle.
    assert_eq!(m.sense().unwrap()[0], KeyEvent::On { cycles_since_state_change: 1 });
}

#[test]
fn debounce_confirms_stable_level_exactly_once() {
    let mut k = KeyState::new();
    // Three disagreeing cycles with a window of three: pending evidence only.
    assert_eq!(k.record(true, 3, 10), (State::Off, false, 1));
    assert_eq!(k.record(true, 3, 10), (State::Off, false, 2));
    // The window is reached: exactly one confirmed transition.
    assert_eq!(k.record(true, 3, 10), (State::On, false, 0));
    // The stable level after the flip produces no further transition.
    assert_eq!(k.record(true, 3, 10), (State::On, false, 1));
    assert_eq!(k.record(true, 3, 10), (State::On, false, 2));
}

#[test]
fn debounce_blip_resets_pending_evidence() {
    let mut k = KeyState::new();
    assert_eq!(k.record(true, 3, 10), (State::Off, false, 1));
    assert_eq!(k.record(true, 3, 10), (State::Off, false, 2));
    // A contrary reading inside the window: no transition, evidence reset.
    assert_eq!(k.record(false, 3, 10), (State::Off, false, 3));
    assert_eq!(k.pending, 0);
    // The window starts over.
    assert_eq!(k.record(true, 3, 10), (State::Off, false, 4));
    assert_eq!(k.record(true, 3, 10), (State::Off, false, 5));
    assert_eq!(k.record(true, 3, 10), (State::On, false, 0));
}

#[test]
fn idle_marked_after_quiet_cycles_in_off() {
    let mut k = KeyState::new();
    // A fresh cell is idle: no evidence yet.
    assert!(k.idle);
    // Any disagreement clears the idle mark.
    k.record(true, 5, 3);
    assert!(!k.idle);
    // Three quiet cycles in Off mark the cell idle again.
    assert_eq!(k.record(false, 5, 3).1, false);
    assert_eq!(k.record(false, 5, 3).1, false);
    assert_eq!(k.record(false, 5, 3).1, true);
    // A key confirmed On is never idle.
    let mut on = KeyState::new();
    on.record(true, 1, 3);
    assert_eq!(on.state, State::On);
    assert_eq!(on.record(true, 1, 3).1, false);
    assert_eq!(on.record(true, 1, 3).1, false);
    assert_eq!(on.record(true, 1, 3).1, false);
}

#[test]
fn off_events_report_idle_flag() {
    // Idle after two quiet cycles.
    let mut m: Matrix<MockCol, MockRow> = Matrix::new(cols(1), rows(1, false), 2, 2).unwrap();
    m.next_strobe().unwrap();
    // The fresh cell is idle and stays idle while nothing disagrees.
    let evs = m.sense().unwrap();
    assert_eq!(evs[0], KeyEvent::Off { idle: true, cycles_since_state_change: 1 });
}
