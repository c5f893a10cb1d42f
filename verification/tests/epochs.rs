use lighthouse_nym::block_id::{BlockId, CoreBlockId};
use lighthouse_nym::hash::Hash256;
use lighthouse_nym::rejection::Rejection;
use lighthouse_nym::slot::{floor_log2, Epoch, Slot};

#[test]
fn slots_and_epochs() {
    assert_eq!(Slot(0).epoch(32), Epoch(0));
    assert_eq!(Slot(31).epoch(32), Epoch(0));
    assert_eq!(Slot(32).epoch(32), Epoch(1));
    assert_eq!(Epoch(3).start_slot(32), Slot(96));
    assert_eq!(Epoch(3).end_slot(32), Slot(127));
}

#[test]
fn slot_numbers_are_capped() {
    let last = Slot(u64::MAX).epoch(32);
    assert_eq!(last.end_slot(32), Slot(u64::MAX));
    assert_eq!(Epoch(u64::MAX).start_slot(32), Slot(u64::MAX));
    assert_eq!(Epoch(u64::MAX).end_slot(32), Slot(u64::MAX));
}

#[test]
fn position_in_an_epoch() {
    assert_eq!(Epoch(3).position(Slot(96), 32), Some(0));
    assert_eq!(Epoch(3).position(Slot(127), 32), Some(31));
    assert_eq!(Epoch(3).position(Slot(95), 32), None);
    assert_eq!(Epoch(3).position(Slot(128), 32), None);
}

#[test]
fn logarithms_are_rounded_down() {
    assert_eq!(floor_log2(1), 0);
    assert_eq!(floor_log2(2), 1);
    assert_eq!(floor_log2(3), 1);
    assert_eq!(floor_log2(8), 3);
    assert_eq!(floor_log2(32), 5);
    assert_eq!(floor_log2(33), 5);
    assert_eq!(floor_log2(u64::MAX), 63);
}

#[test]
fn merkle_proof_of_a_slot_covers_its_epoch() {
    let ask = BlockId::from_slot(Slot(100)).merkle_brunch_root(32);
    assert_eq!(ask.first_slot, Slot(96));
    assert_eq!(ask.last_slot, Slot(127));
    assert_eq!(ask.index, 4);
    assert_eq!(ask.depth, 5);
}

#[test]
fn merkle_proofs_of_one_epoch_share_the_tree() {
    let a = BlockId(CoreBlockId::Slot(Slot(96))).merkle_brunch_root(8);
    let b = BlockId(CoreBlockId::Slot(Slot(103))).merkle_brunch_root(8);
    assert_eq!((a.first_slot, a.last_slot, a.depth), (b.first_slot, b.last_slot, b.depth));
    assert_eq!((a.index, b.index), (0, 7));
    assert_eq!(a.last_slot.0 - a.first_slot.0 + 1, 1 << a.depth);
}

#[test]
fn merkle_proof_in_the_last_epoch() {
    let ask = BlockId::from_slot(Slot(u64::MAX)).merkle_brunch_root(32);
    assert_eq!(ask.first_slot, Slot(u64::MAX - 31));
    assert_eq!(ask.last_slot, Slot(u64::MAX));
    assert_eq!(ask.index, 31);
}

#[test]
fn block_roots_become_the_leaves() {
    let roots = vec![Hash256([1; 32]), Hash256([2; 32])];
    let ask = BlockId::from_slot(Slot(5)).merkle_brunch_root(2).answer(roots.clone());
    assert_eq!(ask.leaves, roots);
    assert_eq!((ask.index, ask.depth), (1, 1));
}

#[test]
fn merkle_proof_is_handed_on() {
    let ask = || BlockId::from_slot(Slot(100)).merkle_brunch_root(32).answer(vec![]);
    let leaf = Hash256([1; 32]);
    let branch = vec![Hash256([2; 32]), Hash256([3; 32])];
    match ask().answer::<u8>(Ok((leaf, branch.clone()))) {
        Ok(proved) => assert_eq!(proved, (leaf, branch)),
        Err(rejection) => panic!("{:?}", rejection),
    }
    match ask().answer::<u8>(Err("InvalidDepth".to_string())) {
        Err(Rejection::CustomServerError(text)) => assert_eq!(text, "InvalidDepth"),
        other => panic!("{:?}", other),
    }
}
