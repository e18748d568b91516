//! Tokens for holds a process takes on shared state.

use subetha_ffi::holds::{
    fresh_block, generation_of, is_claimed, is_token, kind_of, slot_of, split, token, word, HoldTable, ReleaseError,
    BLOCK, TOKEN_TAG,
};

#[test]
fn a_token_is_good_once_and_names_the_kind_it_was_taken_as() {
    let mut table = HoldTable::bounded(2);
    let a = table.claim(3).expect("a free slot");
    assert_eq!(table.kind(a).expect("the hold is live"), 3, "the kind comes back");
    assert_eq!(table.live(), 1);

    assert_eq!(table.release(a), Ok(3));
    assert_eq!(table.live(), 0);
    // The second release is refused rather than freeing a slot the next
    // holder may already be relying on.
    assert_eq!(table.release(a), Err(ReleaseError::NotHeld));
    assert_eq!(table.kind(a).unwrap_err(), ReleaseError::NotHeld, "a spent token names no hold");
}

#[test]
fn a_handle_shaped_value_is_refused_rather_than_naming_a_slot() {
    let mut table = HoldTable::bounded(2);
    let held = table.claim(5).expect("a free slot");
    assert!(is_token(held), "a token carries the tag");

    for handle in [0u64, 1, 0x0000_0001_0000_0001, !TOKEN_TAG] {
        assert!(!is_token(handle), "{handle:#x} is not tagged");
        assert_eq!(
            table.release(handle).unwrap_err(),
            ReleaseError::NotAToken,
            "release({handle:#x}) must refuse an untagged value",
        );
        assert_eq!(
            table.kind(handle).unwrap_err(),
            ReleaseError::NotAToken,
            "kind({handle:#x}) must refuse an untagged value",
        );
    }
    assert_eq!(table.live(), 1, "none of them released the live hold");
    assert_eq!(table.release(held).expect("the real token still works"), 5);
}

#[test]
fn a_token_from_an_earlier_hold_of_the_same_slot_is_refused() {
    let mut table = HoldTable::bounded(1);
    let first = table.claim(1).expect("the only slot");
    table.release(first).expect("released");
    let second = table.claim(1).expect("the slot comes back");
    assert_ne!(first, second, "the generation moved, so the token differs");

    assert_eq!(table.release(first), Err(ReleaseError::Stale));
    assert_eq!(table.kind(first).unwrap_err(), ReleaseError::Stale);
    assert_eq!(table.release(second), Ok(1), "the live token still works");
}

#[test]
fn a_bounded_table_stops_at_its_ceiling() {
    let mut table = HoldTable::bounded(1);
    let only = table.claim(7).expect("the one slot");
    assert!(table.claim(7).is_none(), "a ceiling of one holds one");
    table.release(only).expect("back");
    assert!(table.claim(7).is_some(), "and hands it out again");
}

#[test]
fn an_unbounded_table_grows_past_a_block_and_keeps_every_token_good() {
    let mut table = HoldTable::unbounded();
    let first_capacity = table.capacity();
    let mut held = Vec::new();
    for _ in 0..first_capacity * 3 {
        held.push(table.claim(1).expect("an unbounded table never refuses"));
    }
    assert!(table.capacity() > first_capacity, "it grew rather than refusing");
    assert_eq!(table.live(), held.len());
    // Tokens taken before a growth still name their own slots: the blocks
    // were appended, so no index changed meaning.
    for t in &held {
        assert_eq!(table.kind(*t).expect("the hold survived the growth"), 1);
    }
    for t in held {
        table.release(t).expect("every token is still good");
    }
    assert_eq!(table.live(), 0);
}

#[test]
fn a_full_table_refuses_and_a_forged_token_names_nothing() {
    let mut table = HoldTable::bounded(2);
    let a = table.claim(0).expect("first");
    let b = table.claim(0).expect("second");
    assert!(table.claim(0).is_none(), "no third slot");
    assert_eq!(table.release(token(9999, 1)), Err(ReleaseError::NoSuchSlot));
    // An all-zeroes token - a caller's uninitialized variable - carries no
    // tag, so it is refused before any slot is read and whatever slot 0
    // happens to hold is irrelevant.
    assert_eq!(
        table.release(0).unwrap_err(),
        ReleaseError::NotAToken,
        "an unset token releases nothing",
    );
    table.release(a).expect("first back");
    table.release(b).expect("second back");
    assert!(table.claim(0).is_some(), "the slots are reusable");
}

/// Eight holders take turns claiming and releasing, each at its own pace, so
/// that up to eight holds stand at once.
#[test]
fn claims_in_turn_never_hand_one_slot_to_two_holders() {
    let mut table = HoldTable::bounded(8);
    assert_eq!(table.capacity(), 8, "a ceiling of eight is eight, not a block");
    let mut held = vec![0u32; 8];
    let mut tokens: Vec<Option<u64>> = vec![None; 8];
    for round in 0..20_000usize {
        for holder in 0..8usize {
            match tokens[holder] {
                None => {
                    if let Some(t) = table.claim(1) {
                        let (slot, _) = split(t);
                        assert_eq!(held[slot], 0, "slot {slot} was handed to two holders");
                        held[slot] += 1;
                        tokens[holder] = Some(t);
                    }
                }
                Some(t) => {
                    if round % (holder + 1) == 0 {
                        let (slot, _) = split(t);
                        held[slot] -= 1;
                        table.release(t).expect("the token this holder holds");
                        tokens[holder] = None;
                    }
                }
            }
        }
    }
    for t in tokens.into_iter().flatten() {
        table.release(t).expect("the token this holder holds");
    }
    assert_eq!(table.live(), 0, "every hold was given back");
}

#[test]
fn a_word_keeps_a_generation_a_kind_and_whether_it_is_held() {
    let held = word(9, 5, true);
    assert_eq!(generation_of(held), 9);
    assert_eq!(kind_of(held), 5);
    assert!(is_claimed(held));
    let free = word(u32::MAX, 127, false);
    assert_eq!(generation_of(free), u32::MAX);
    assert_eq!(kind_of(free), 127);
    assert!(!is_claimed(free));
}

#[test]
fn a_token_splits_into_what_it_was_made_from() {
    let t = token(12, 34);
    assert_eq!(split(t), (12, 34));
    assert_eq!(slot_of(t), 12);
    assert_eq!(t & TOKEN_TAG, TOKEN_TAG);
    assert_eq!(t, TOKEN_TAG | (12 << 32) | 34);
}

#[test]
fn a_word_holds_nothing_but_its_three_parts() {
    assert_eq!(word(1, 3, true), 0x1_0000_0007);
    assert_eq!(word(1, 3, false), 0x1_0000_0006);
    assert_eq!(word(2, 128, true), 0x2_0000_0001, "seven bits of the kind are kept");
}

#[test]
fn a_fresh_block_is_free() {
    let block = fresh_block();
    assert_eq!(block.len(), BLOCK);
    for w in block {
        assert!(!is_claimed(w));
        assert_eq!(w, 0x1_0000_0000);
    }
}

#[test]
fn a_capacity_is_the_ceiling_before_the_table_has_grown_to_it() {
    let mut table = HoldTable::bounded(100);
    assert_eq!(table.capacity(), 100);
    for _ in 0..100 {
        assert!(table.claim(0).is_some());
    }
    assert_eq!(table.capacity(), 100);
    assert!(table.claim(0).is_none(), "no slot past the ceiling");
    assert_eq!(HoldTable::bounded(0).capacity(), 1);
    assert_eq!(HoldTable::unbounded().capacity(), BLOCK);
}

#[test]
fn a_drain_takes_every_hold_and_leaves_their_tokens_spent() {
    let mut table = HoldTable::bounded(4);
    let a = table.claim(2).expect("a slot");
    let b = table.claim(6).expect("a slot");
    let drained = table.drain();
    assert_eq!(drained, vec![(split(a).0, 2), (split(b).0, 6)]);
    assert_eq!(table.live(), 0);
    assert_eq!(table.release(a), Err(ReleaseError::NotHeld));
    assert!(table.drain().is_empty());
}
