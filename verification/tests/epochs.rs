//! Pins and tickets taken through one handle.

use subetha_ffi::epochs::{
    place, refuse, subetha_epochs_begin, subetha_epochs_dead_tickets, subetha_epochs_held, subetha_epochs_pin,
    subetha_pin_epoch, subetha_pin_release, subetha_pin_sees, subetha_ticket_epoch, subetha_ticket_publish, write_u64,
    EpochsObject, SUBETHA_EPOCH_LIVE,
};
use subetha_ffi::error::{
    EpochError, LastError, SUBETHA_E_EPOCHS_PINS_EXHAUSTED,
    SUBETHA_E_EPOCHS_TICKETS_EXHAUSTED, SUBETHA_E_INVALID_ARGUMENT, SUBETHA_E_RING_IO, SUBETHA_OK,
};
use subetha_ffi::holds::{token, HoldTable, ReleaseError};

#[test]
fn tokens_are_issued_from_the_first_slot_on() {
    let mut last = LastError::new();
    let mut object = place(&mut last, Ok(4), 0).unwrap();
    assert_eq!(subetha_epochs_pin(&mut object, &mut last, Ok((2, 40))).token, Some(token(0, 1)));
    assert_eq!(subetha_epochs_pin(&mut object, &mut last, Ok((3, 41))).token, Some(token(1, 1)));
    assert_eq!(subetha_epochs_begin(&mut object, &mut last, Ok((0, 42))).token, Some(token(0, 1)));
}

#[test]
fn a_pin_is_released_once_and_gives_back_its_slot() {
    let mut last = LastError::new();
    let mut object = EpochsObject::new(4, 0);
    let taken = subetha_epochs_pin(&mut object, &mut last, Ok((2, 40)));
    assert_eq!(taken.code, SUBETHA_OK);
    assert_eq!(taken.give_back, None);
    let token = taken.token.expect("a token");
    assert_eq!(subetha_pin_epoch(&object, &mut last, token, false), Ok(40));
    assert_eq!(subetha_pin_epoch(&object, &mut last, token, true), Err(SUBETHA_E_INVALID_ARGUMENT));
    assert_eq!(subetha_epochs_held(&object, &mut last, false, false), Ok((1, 0)));
    assert_eq!(subetha_pin_release(&mut object, &mut last, token), Ok(2));
    assert_eq!(subetha_pin_release(&mut object, &mut last, token), Err(SUBETHA_E_INVALID_ARGUMENT));
    assert_eq!(subetha_epochs_held(&object, &mut last, false, false), Ok((0, 0)));
}

#[test]
fn a_ticket_is_published_once() {
    let mut last = LastError::new();
    let mut object = EpochsObject::new(2, 0);
    let token = subetha_epochs_begin(&mut object, &mut last, Ok((1, 9))).token.expect("a token");
    assert_eq!(subetha_ticket_epoch(&object, &mut last, token, false), Ok(9));
    assert_eq!(subetha_ticket_publish(&mut object, &mut last, token), Ok(1));
    assert_eq!(subetha_ticket_publish(&mut object, &mut last, token), Err(SUBETHA_E_INVALID_ARGUMENT));
}

#[test]
fn a_pin_sees_what_was_superseded_after_it_was_taken() {
    let mut last = LastError::new();
    let mut object = EpochsObject::new(1, 0);
    let token = subetha_epochs_pin(&mut object, &mut last, Ok((0, 7))).token.expect("a token");
    assert_eq!(subetha_pin_sees(&object, &mut last, token, 7, false), Ok(false));
    assert_eq!(subetha_pin_sees(&object, &mut last, token, 8, false), Ok(true));
    assert_eq!(subetha_pin_sees(&object, &mut last, token, SUBETHA_EPOCH_LIVE, false), Ok(true));
    assert_eq!(subetha_pin_sees(&object, &mut last, token, 8, true), Err(SUBETHA_E_INVALID_ARGUMENT));
}

#[test]
fn a_full_handle_gives_the_shared_slot_back() {
    let mut last = LastError::new();
    let mut object = EpochsObject::new(1, 0);
    assert!(subetha_epochs_pin(&mut object, &mut last, Ok((0, 1))).token.is_some());
    let refused = subetha_epochs_pin(&mut object, &mut last, Ok((3, 1)));
    assert_eq!(refused.code, SUBETHA_E_EPOCHS_PINS_EXHAUSTED);
    assert_eq!(refused.token, None);
    assert_eq!(refused.give_back, Some(3));
    assert!(subetha_epochs_begin(&mut object, &mut last, Ok((0, 1))).token.is_some());
    let refused = subetha_epochs_begin(&mut object, &mut last, Ok((2, 1)));
    assert_eq!(refused.code, SUBETHA_E_EPOCHS_TICKETS_EXHAUSTED);
    assert_eq!(refused.give_back, Some(2));
}

#[test]
fn a_claim_the_table_refused_takes_nothing() {
    let mut last = LastError::new();
    let mut object = EpochsObject::new(2, 0);
    let taken = subetha_epochs_pin(&mut object, &mut last, Err(EpochError::IoError(String::from("NotFound"))));
    assert_eq!(taken.code, SUBETHA_E_RING_IO);
    assert_eq!(taken.token, None);
    assert_eq!(taken.give_back, None);
    assert_eq!(subetha_epochs_held(&object, &mut last, false, false), Ok((0, 0)));
}

#[test]
fn a_drain_names_every_slot_still_held() {
    let mut last = LastError::new();
    let mut object = EpochsObject::new(4, 0);
    subetha_epochs_pin(&mut object, &mut last, Ok((3, 1)));
    subetha_epochs_pin(&mut object, &mut last, Ok((1, 2)));
    subetha_epochs_begin(&mut object, &mut last, Ok((2, 5)));
    assert_eq!(object.drain(), (vec![3, 1], vec![2]));
    assert_eq!(object.drain(), (vec![], vec![]));
}

#[test]
fn a_token_spends_once() {
    let mut pins = HoldTable::bounded(4);
    let token = pins.claim(0).expect("a pin slot");
    assert!(pins.release(token).is_ok());
    assert!(pins.release(token).is_err(), "a token spends once");
}

#[test]
fn the_snapshot_carries_what_the_table_says() {
    let object = EpochsObject::new(4, 1);
    let stats = object.stats(4, 11, 10, 1, 2, 4096);
    assert_eq!((stats.mode, stats.capacity, stats.now), (1, 4, 11));
    assert_eq!((stats.reclaim_horizon, stats.live_pins, stats.open_tickets, stats.file_size), (10, 1, 2, 4096));
}

#[test]
fn each_bad_token_is_told_apart() {
    let mut last = LastError::new();
    for (e, text) in [
        (ReleaseError::NotAToken, "that is a handle, not a pin token"),
        (ReleaseError::NoSuchSlot, "the token names no pin slot on this table"),
        (ReleaseError::NotHeld, "the token names no pin on this table: it ended already, or never began"),
        (ReleaseError::Stale, "the token is from a pin that ended, and its slot has been taken since"),
    ] {
        assert_eq!(refuse(&mut last, "pin", e), SUBETHA_E_INVALID_ARGUMENT);
        assert_eq!(last.detail(), text);
    }
}

#[test]
fn dead_tickets_are_reported_with_how_many_there_are() {
    let mut last = LastError::new();
    let mut out = [0u64; 4];
    assert_eq!(subetha_epochs_dead_tickets(&mut last, &[5, 6], false, &mut out, false), Ok(2));
    assert_eq!(out, [5, 6, 0, 0]);
    assert_eq!(
        subetha_epochs_dead_tickets(&mut last, &[5, 6], false, &mut out, true),
        Err(SUBETHA_E_INVALID_ARGUMENT)
    );
    let mut small = [9u64; 1];
    assert_eq!(subetha_epochs_dead_tickets(&mut last, &[5, 6], false, &mut small, false), Ok(2));
    assert_eq!(small, [5], "as many as fit");
    assert_eq!(subetha_epochs_dead_tickets(&mut last, &[5, 6], true, &mut [], false), Ok(2));
}

#[test]
fn a_table_that_could_not_be_opened_makes_no_object() {
    let mut last = LastError::new();
    assert!(place(&mut last, Ok(4), 0).is_ok());
    assert_eq!(
        place(&mut last, Err(EpochError::IoError(String::from("NotFound"))), 0).err(),
        Some(SUBETHA_E_RING_IO)
    );
    assert_eq!(write_u64(&mut last, false, 3), Ok(3));
    assert_eq!(write_u64(&mut last, true, 3), Err(SUBETHA_E_INVALID_ARGUMENT));
}
