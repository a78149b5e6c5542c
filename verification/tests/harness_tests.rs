use journal::HarnessError;
use journal::Journal;
use journal::TermState;

#[test]
fn construction_then_teardown_restores_terminal() {
    let mut term = TermState::start();
    let j = Journal::new(&mut term, true, true, true).unwrap();
    assert!(term.raw);
    assert!(term.alt);
    assert_eq!(j.frames, 0);
    j.restore(&mut term, true, true);
    assert!(!term.raw);
    assert!(!term.alt);
    assert_eq!(term.raw_enables, 1);
    assert_eq!(term.raw_disables, 1);
    assert_eq!(term.alt_enters, 1);
    assert_eq!(term.alt_leaves, 1);
}

#[test]
fn repeated_cycles_keep_counts_balanced() {
    let mut term = TermState::start();
    for _ in 0..5 {
        let j = Journal::new(&mut term, true, true, true).unwrap();
        j.restore(&mut term, true, true);
    }
    assert_eq!(term.raw_enables, 5);
    assert_eq!(term.raw_disables, 5);
    assert_eq!(term.alt_enters, 5);
    assert_eq!(term.alt_leaves, 5);
    assert!(!term.raw);
    assert!(!term.alt);
}

#[test]
fn raw_mode_failure_aborts_construction() {
    let mut term = TermState::start();
    let r = Journal::new(&mut term, false, true, true);
    assert_eq!(r.unwrap_err(), HarnessError::RawMode);
    assert!(!term.raw);
    assert!(!term.alt);
    assert_eq!(term.raw_enables, 1);
    assert_eq!(term.alt_enters, 0);
}

#[test]
fn alternate_screen_failure_leaves_raw_mode_on() {
    let mut term = TermState::start();
    let r = Journal::new(&mut term, true, false, true);
    assert_eq!(r.unwrap_err(), HarnessError::AlternateScreen);
    assert!(term.raw);
    assert!(!term.alt);
    assert_eq!(term.raw_enables, 1);
    assert_eq!(term.alt_enters, 1);
}

#[test]
fn surface_bind_failure_leaves_both_modes_on() {
    let mut term = TermState::start();
    let r = Journal::new(&mut term, true, true, false);
    assert_eq!(r.unwrap_err(), HarnessError::SurfaceBind);
    assert!(term.raw);
    assert!(term.alt);
}

#[test]
fn teardown_attempts_both_restorations() {
    let mut term = TermState::start();
    let j = Journal::new(&mut term, true, true, true).unwrap();
    j.restore(&mut term, false, true);
    assert!(term.raw);
    assert!(!term.alt);
    assert_eq!(term.raw_disables, 1);
    assert_eq!(term.alt_leaves, 1);
}
