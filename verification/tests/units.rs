use starstream_sys::utxo::RawUnit;
use starstream_sys::BoundaryViolation;
use starstream_sys::RawUtxo;
use starstream_sys::UnitStep;
use starstream_sys::Utxo;
use starstream_sys::UtxoArena;
use starstream_sys::UtxoStatus;

#[test]
fn pause_resume_finish() {
    // A unit pauses once yielding a 64-bit amount of 10, is resumed with the
    // empty value, then finishes: statuses Yielded, Returned, and a further
    // resume attempt is rejected.
    let mut arena: UtxoArena<RawUnit> = UtxoArena::new();
    let h = arena.start_yielded(vec![10, 0, 0, 0, 0, 0, 0, 0], 0);
    assert_eq!(arena.status(h), UtxoStatus::Yielded);
    assert_eq!(arena.pending_yield(h), &vec![10, 0, 0, 0, 0, 0, 0, 0]);
    let empty: Vec<u8> = Vec::new();
    let delivered = arena.try_resume(h, &empty, UnitStep::Finish);
    assert_eq!(delivered, Ok(Vec::new()));
    assert_eq!(arena.status(h), UtxoStatus::Returned);
    let again = arena.try_resume(h, &empty, UnitStep::Finish);
    assert_eq!(again, Err(BoundaryViolation::NotResumable));
    let third = arena.try_resume(h, &empty, UnitStep::Finish);
    assert_eq!(third, Err(BoundaryViolation::NotResumable));
}

#[test]
fn status_is_pure() {
    let mut arena: UtxoArena<RawUnit> = UtxoArena::new();
    let h = arena.start_yielded(vec![1], 0);
    let first = arena.status(h);
    let second = arena.status(h);
    assert_eq!(first, second);
    assert_eq!(first, UtxoStatus::Yielded);
}

#[test]
fn returned_unit_rejects_resume() {
    let mut arena: UtxoArena<RawUnit> = UtxoArena::new();
    let h = arena.start_returned();
    assert_eq!(arena.status(h), UtxoStatus::Returned);
    assert!(!arena.can_resume(h));
    let r = arena.try_resume(h, &vec![], UnitStep::Finish);
    assert_eq!(r, Err(BoundaryViolation::NotResumable));
}

#[test]
fn resume_value_of_wrong_size_is_rejected() {
    let mut arena: UtxoArena<RawUnit> = UtxoArena::new();
    let h = arena.start_yielded(vec![5, 6], 4);
    let r = arena.try_resume(h, &vec![1, 2, 3], UnitStep::Finish);
    assert_eq!(r, Err(BoundaryViolation::ResumeSizeMismatch));
    // The rejection left the unit untouched: still paused, same pending value.
    assert_eq!(arena.status(h), UtxoStatus::Yielded);
    assert_eq!(arena.pending_yield(h), &vec![5, 6]);
    assert_eq!(arena.expected_resume_size(h), 4);
}

#[test]
fn resume_delivers_exact_bytes() {
    let mut arena: UtxoArena<RawUnit> = UtxoArena::new();
    let h = arena.start_yielded(vec![1], 2);
    let delivered = arena.resume(
        h,
        &vec![9, 9],
        UnitStep::Yield { data: vec![7], resume_size: 0 },
    );
    assert_eq!(delivered, vec![9, 9]);
    assert_eq!(arena.status(h), UtxoStatus::Yielded);
    assert_eq!(arena.pending_yield(h), &vec![7]);
    assert_eq!(arena.expected_resume_size(h), 0);
}

#[test]
fn status_codes_gate_resumption() {
    assert!(UtxoStatus::Yielded.can_resume());
    assert!(!UtxoStatus::Returned.can_resume());
}

#[test]
fn units_are_isolated() {
    let mut arena: UtxoArena<RawUnit> = UtxoArena::new();
    let h1 = arena.start_yielded(vec![1], 0);
    let h2 = arena.start_yielded(vec![2], 0);
    assert!(h1 != h2);
    arena.next(h1, UnitStep::Finish);
    assert_eq!(arena.status(h1), UtxoStatus::Returned);
    assert_eq!(arena.status(h2), UtxoStatus::Yielded);
    assert_eq!(arena.pending_yield(h2), &vec![2]);
}

#[test]
fn binding_forwards_to_arena() {
    let mut arena: UtxoArena<RawUnit> = UtxoArena::new();
    let unit = RawUtxo { handle: arena.start_yielded(vec![10], 0) };
    assert_eq!(unit.status(&arena), UtxoStatus::Yielded);
    assert!(unit.can_resume(&arena));
    let delivered = unit.resume(&mut arena, &Vec::new(), UnitStep::Finish);
    assert!(delivered.is_empty());
    assert_eq!(unit.status(&arena), UtxoStatus::Returned);
    assert!(!unit.can_resume(&arena));
}

#[test]
fn binding_next_finishes_unit() {
    let mut arena: UtxoArena<RawUnit> = UtxoArena::new();
    let unit = RawUtxo { handle: arena.start_yielded(vec![1, 2, 3], 0) };
    unit.next(&mut arena, UnitStep::Finish);
    assert_eq!(unit.status(&arena), UtxoStatus::Returned);
}
