use lighthouse_nym::block_id::block::{BlockStep, FoundBlock};
use lighthouse_nym::block_id::{BlockId, Checkpoint, CoreBlockId, RootResult, RootStep};
use lighthouse_nym::hash::Hash256;
use lighthouse_nym::rejection::{BeaconChainError, NotFound, Rejection};
use lighthouse_nym::slot::{Epoch, Slot};

const HEAD: Hash256 = Hash256([1; 32]);
const GENESIS: Hash256 = Hash256([2; 32]);
const FINALIZED: Hash256 = Hash256([3; 32]);
const JUSTIFIED: Hash256 = Hash256([4; 32]);
const AT_SLOT: Hash256 = Hash256([5; 32]);

/// A chain that answers the questions of the lookups. A failure is named by a text.
struct Chain {
    head: Result<(Hash256, bool), &'static str>,
    checkpoint_status: fn() -> Result<(Slot, bool), Rejection<&'static str>>,
    optimistic_head: Result<bool, &'static str>,
    root_at_slot: Result<Option<Hash256>, &'static str>,
    block_exists: Result<bool, &'static str>,
    optimistic_block: Result<bool, &'static str>,
    block_slot: Result<Option<Slot>, &'static str>,
    finalized_block: Result<bool, &'static str>,
}

fn healthy() -> Chain {
    Chain {
        head: Ok((HEAD, true)),
        checkpoint_status: || Ok((Slot(64), true)),
        optimistic_head: Ok(false),
        root_at_slot: Ok(Some(AT_SLOT)),
        block_exists: Ok(true),
        optimistic_block: Ok(true),
        block_slot: Ok(Some(Slot(70))),
        finalized_block: Ok(false),
    }
}

/// Runs a root lookup, and counts its questions.
fn run(id: &BlockId, chain: &Chain) -> (RootResult<&'static str>, usize) {
    let finalized = Checkpoint { epoch: Epoch(2), root: FINALIZED };
    let justified = Checkpoint { epoch: Epoch(3), root: JUSTIFIED };
    let mut step = id.root();
    let mut questions = 0;
    loop {
        step = match step {
            RootStep::Done(result) => return (result, questions),
            RootStep::Head(ask) => ask.answer(chain.head),
            RootStep::Genesis(ask) => ask.answer(GENESIS),
            RootStep::FinalizedCheckpoint(ask) => ask.answer(finalized),
            RootStep::JustifiedCheckpoint(ask) => ask.answer(justified),
            RootStep::CheckpointStatus(ask) => ask.answer((chain.checkpoint_status)()),
            RootStep::OptimisticHead(ask) => ask.answer(chain.optimistic_head),
            RootStep::RootAtSlot(ask) => ask.answer(chain.root_at_slot),
            RootStep::FinalizedEpoch(ask) => ask.answer(finalized, 32),
            RootStep::BlockExists(ask) => ask.answer(chain.block_exists),
            RootStep::OptimisticBlock(ask) => ask.answer(chain.optimistic_block),
            RootStep::BlockSlot(ask) => ask.answer(chain.block_slot),
            RootStep::FinalizedBlock(ask) => ask.answer(chain.finalized_block),
        };
        questions += 1;
    }
}

fn found(id: CoreBlockId, chain: &Chain) -> (Hash256, bool, bool) {
    match run(&BlockId(id), chain).0 {
        Ok(found) => found,
        Err(rejection) => panic!("refused: {:?}", rejection),
    }
}

fn refusal(id: CoreBlockId, chain: &Chain) -> Rejection<&'static str> {
    match run(&BlockId(id), chain).0 {
        Ok(found) => panic!("found: {:?}", found),
        Err(rejection) => rejection,
    }
}

#[test]
fn constructors_name_the_slot_and_the_root() {
    assert!(matches!(BlockId::from_slot(Slot(9)).0, CoreBlockId::Slot(Slot(9))));
    match BlockId::from_root(HEAD).0 {
        CoreBlockId::Root(root) => assert_eq!(root, HEAD),
        other => panic!("{:?}", other),
    }
}

#[test]
fn head_is_optimistic_as_the_chain_says_and_not_final() {
    assert_eq!(found(CoreBlockId::Head, &healthy()), (HEAD, true, false));
}

#[test]
fn failing_head_is_refused_with_the_failure_of_the_chain() {
    let chain = Chain { head: Err("head"), ..healthy() };
    assert!(matches!(
        refusal(CoreBlockId::Head, &chain),
        Rejection::BeaconChainError(BeaconChainError::Chain("head"))
    ));
}

#[test]
fn genesis_is_final_and_not_optimistic() {
    assert_eq!(found(CoreBlockId::Genesis, &healthy()), (GENESIS, false, true));
}

#[test]
fn finalized_checkpoint_is_final_and_justified_is_not() {
    assert_eq!(found(CoreBlockId::Finalized, &healthy()), (FINALIZED, true, true));
    assert_eq!(found(CoreBlockId::Justified, &healthy()), (JUSTIFIED, true, false));
}

#[test]
fn refusal_of_a_checkpoint_is_passed_on() {
    let chain = Chain {
        checkpoint_status: || Err(Rejection::CustomServerError("no checkpoint".to_string())),
        ..healthy()
    };
    for id in [CoreBlockId::Finalized, CoreBlockId::Justified] {
        match refusal(id, &chain) {
            Rejection::CustomServerError(text) => assert_eq!(text, "no checkpoint"),
            other => panic!("{:?}", other),
        }
    }
}

#[test]
fn slot_is_final_up_to_the_first_slot_of_the_finalized_epoch() {
    // The finalized epoch is 2, of 32 slots each: its first slot is 64.
    assert_eq!(found(CoreBlockId::Slot(Slot(0)), &healthy()), (AT_SLOT, false, true));
    assert_eq!(found(CoreBlockId::Slot(Slot(63)), &healthy()), (AT_SLOT, false, true));
    assert_eq!(found(CoreBlockId::Slot(Slot(64)), &healthy()), (AT_SLOT, false, true));
    assert_eq!(found(CoreBlockId::Slot(Slot(65)), &healthy()), (AT_SLOT, false, false));
}

#[test]
fn slot_is_optimistic_where_the_head_is() {
    let chain = Chain { optimistic_head: Ok(true), ..healthy() };
    assert_eq!(found(CoreBlockId::Slot(Slot(65)), &chain), (AT_SLOT, true, false));
}

#[test]
fn slot_without_a_block_is_not_found() {
    let chain = Chain { root_at_slot: Ok(None), ..healthy() };
    match refusal(CoreBlockId::Slot(Slot(12)), &chain) {
        Rejection::CustomNotFound(what) => {
            assert!(matches!(what, NotFound::BlockAtSlot(Slot(12))));
            assert_eq!(what.message("unused"), "beacon block at slot 12");
        }
        other => panic!("{:?}", other),
    }
}

#[test]
fn failures_of_a_slot_lookup_are_failures_of_the_chain() {
    let chain = Chain { optimistic_head: Err("status"), root_at_slot: Err("root"), ..healthy() };
    assert!(matches!(
        refusal(CoreBlockId::Slot(Slot(12)), &chain),
        Rejection::BeaconChainError(BeaconChainError::Chain("status"))
    ));
    let chain = Chain { root_at_slot: Err("root"), ..healthy() };
    assert!(matches!(
        refusal(CoreBlockId::Slot(Slot(12)), &chain),
        Rejection::BeaconChainError(BeaconChainError::Chain("root"))
    ));
}

#[test]
fn zero_root_is_not_found_without_a_question() {
    let id = BlockId(CoreBlockId::Root(Hash256::zero()));
    let (result, questions) = run(&id, &healthy());
    assert_eq!(questions, 0);
    match result {
        Err(Rejection::CustomNotFound(what)) => {
            assert_eq!(what.message("0x00"), "beacon block with root 0x00");
        }
        other => panic!("{:?}", other),
    }
}

#[test]
fn root_that_is_zero_but_for_one_byte_is_looked_up() {
    let mut bytes = [0u8; 32];
    bytes[31] = 1;
    assert_eq!(found(CoreBlockId::Root(Hash256(bytes)), &healthy()).0, Hash256(bytes));
}

#[test]
fn root_lookup_yields_the_root_and_what_the_chain_says_of_it() {
    let (result, questions) = run(&BlockId::from_root(AT_SLOT), &healthy());
    assert_eq!(questions, 4);
    match result {
        Ok(found) => assert_eq!(found, (AT_SLOT, true, false)),
        Err(rejection) => panic!("{:?}", rejection),
    }
    let chain = Chain { optimistic_block: Ok(false), finalized_block: Ok(true), ..healthy() };
    assert_eq!(found(CoreBlockId::Root(AT_SLOT), &chain), (AT_SLOT, false, true));
}

#[test]
fn root_that_is_not_stored_is_not_found() {
    for chain in [
        Chain { block_exists: Ok(false), ..healthy() },
        Chain { block_slot: Ok(None), ..healthy() },
    ] {
        match refusal(CoreBlockId::Root(AT_SLOT), &chain) {
            Rejection::CustomNotFound(NotFound::BlockWithRoot(root)) => assert_eq!(root, AT_SLOT),
            other => panic!("{:?}", other),
        }
    }
}

#[test]
fn failures_of_a_root_lookup_name_the_part_that_failed() {
    let chain = Chain { block_exists: Err("store"), ..healthy() };
    assert!(matches!(
        refusal(CoreBlockId::Root(AT_SLOT), &chain),
        Rejection::BeaconChainError(BeaconChainError::DBError("store"))
    ));
    let chain = Chain { optimistic_block: Err("fork choice"), ..healthy() };
    assert!(matches!(
        refusal(CoreBlockId::Root(AT_SLOT), &chain),
        Rejection::BeaconChainError(BeaconChainError::ForkChoiceError("fork choice"))
    ));
    let chain = Chain { block_slot: Err("block"), ..healthy() };
    assert!(matches!(
        refusal(CoreBlockId::Root(AT_SLOT), &chain),
        Rejection::BeaconChainError(BeaconChainError::Chain("block"))
    ));
    let chain = Chain { finalized_block: Err("finality"), ..healthy() };
    assert!(matches!(
        refusal(CoreBlockId::Root(AT_SLOT), &chain),
        Rejection::BeaconChainError(BeaconChainError::Chain("finality"))
    ));
}

/// Runs a block lookup whose blocks are texts.
fn run_block(
    id: &BlockId,
    full: bool,
    chain: &Chain,
    block: Result<Option<FoundBlock<&'static str>>, &'static str>,
) -> Result<(&'static str, bool, bool), Rejection<&'static str>> {
    let mut block = Some(block);
    let mut step = if full { id.full_block() } else { id.blinded_block() };
    loop {
        step = match step {
            BlockStep::Done(result) => return result,
            BlockStep::Head(ask) => {
                ask.answer(chain.head.map(|(_, optimistic)| ("head block", optimistic)))
            }
            BlockStep::Root(ask) => {
                let root = run(&ask.id, chain).0;
                ask.answer(root)
            }
            BlockStep::Block(ask) => match block.take() {
                Some(reply) => ask.answer(reply),
                None => panic!("asked twice"),
            },
        };
    }
}

#[test]
fn root_of_the_identifier_itself_is_asked_for() {
    for root in [HEAD, AT_SLOT] {
        match BlockId::from_root(root).blinded_block::<u8, u8>() {
            BlockStep::Root(ask) => {
                assert!(matches!(ask.id.0, CoreBlockId::Root(asked) if asked == root))
            }
            other => panic!("{:?}", other),
        }
    }
    match BlockId(CoreBlockId::Genesis).full_block::<u8, u8>() {
        BlockStep::Root(ask) => assert!(matches!(ask.id.0, CoreBlockId::Genesis)),
        other => panic!("{:?}", other),
    }
}

#[test]
fn head_block_comes_from_the_cached_head() {
    for full in [false, true] {
        let id = BlockId(CoreBlockId::Head);
        match run_block(&id, full, &healthy(), Err("must not be asked")) {
            Ok(found) => assert_eq!(found, ("head block", true, false)),
            Err(rejection) => panic!("{:?}", rejection),
        }
        let chain = Chain { head: Err("head"), ..healthy() };
        assert!(matches!(
            run_block(&id, full, &chain, Ok(None)),
            Err(Rejection::BeaconChainError(BeaconChainError::Chain("head")))
        ));
    }
}

#[test]
fn block_at_its_slot_is_found() {
    for full in [false, true] {
        let reply = Ok(Some(FoundBlock { slot: Slot(65), block: "block" }));
        match run_block(&BlockId::from_slot(Slot(65)), full, &healthy(), reply) {
            Ok(found) => assert_eq!(found, ("block", false, false)),
            Err(rejection) => panic!("{:?}", rejection),
        }
    }
}

#[test]
fn slot_that_holds_another_slots_block_was_skipped() {
    for full in [false, true] {
        let reply = Ok(Some(FoundBlock { slot: Slot(64), block: "block" }));
        match run_block(&BlockId::from_slot(Slot(65)), full, &healthy(), reply) {
            Err(Rejection::CustomNotFound(what)) => {
                assert_eq!(what.message(""), "slot 65 was skipped");
            }
            other => panic!("{:?}", other),
        }
    }
}

#[test]
fn blinded_and_full_lookups_agree() {
    for id in [
        CoreBlockId::Head,
        CoreBlockId::Genesis,
        CoreBlockId::Finalized,
        CoreBlockId::Justified,
        CoreBlockId::Slot(Slot(65)),
        CoreBlockId::Slot(Slot(66)),
        CoreBlockId::Root(AT_SLOT),
        CoreBlockId::Root(Hash256::zero()),
    ] {
        let reply = || Ok(Some(FoundBlock { slot: Slot(65), block: "block" }));
        let blinded = run_block(&BlockId(id), false, &healthy(), reply());
        let full = run_block(&BlockId(id), true, &healthy(), reply());
        assert_eq!(format!("{:?}", blinded), format!("{:?}", full));
    }
}

#[test]
fn blocks_named_otherwise_may_have_any_slot() {
    for (id, outcome) in [
        (CoreBlockId::Genesis, ("block", false, true)),
        (CoreBlockId::Finalized, ("block", true, true)),
        (CoreBlockId::Justified, ("block", true, false)),
        (CoreBlockId::Root(AT_SLOT), ("block", true, false)),
    ] {
        let reply = Ok(Some(FoundBlock { slot: Slot(1), block: "block" }));
        match run_block(&BlockId(id), false, &healthy(), reply) {
            Ok(found) => assert_eq!(found, outcome),
            Err(rejection) => panic!("{:?}", rejection),
        }
    }
}

#[test]
fn missing_block_is_not_found_by_its_root() {
    for id in [CoreBlockId::Slot(Slot(65)), CoreBlockId::Root(AT_SLOT)] {
        match run_block(&BlockId(id), true, &healthy(), Ok(None)) {
            Err(Rejection::CustomNotFound(NotFound::BlockWithRoot(root))) => {
                assert_eq!(root, AT_SLOT)
            }
            other => panic!("{:?}", other),
        }
    }
}

#[test]
fn failing_block_lookup_is_a_failure_of_the_chain() {
    assert!(matches!(
        run_block(&BlockId::from_slot(Slot(65)), true, &healthy(), Err("block")),
        Err(Rejection::BeaconChainError(BeaconChainError::Chain("block")))
    ));
    let chain = Chain { root_at_slot: Ok(None), ..healthy() };
    assert!(matches!(
        run_block(&BlockId::from_slot(Slot(65)), true, &chain, Err("block")),
        Err(Rejection::CustomNotFound(NotFound::BlockAtSlot(Slot(65))))
    ));
}

#[test]
fn zero_root_has_no_block() {
    let id = BlockId::from_root(Hash256::zero());
    let reply = Ok(Some(FoundBlock { slot: Slot(1), block: "block" }));
    assert!(matches!(
        run_block(&id, false, &healthy(), reply),
        Err(Rejection::CustomNotFound(NotFound::BlockWithRoot(_)))
    ));
}
