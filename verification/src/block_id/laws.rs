//! What the lookups amount to on a chain that does not change while they run.
use crate::block_id::blobs::{
    AskBlobList, AskBlobRoot, BlobResult, BlobSidecar, BlobSidecarList, BlobStep,
};
use crate::block_id::block::{BlockResult, BlockStep, FoundBlock};
use crate::block_id::{
    BlockId, Checkpoint, CoreBlockId, ExecutionOptimistic, Finalized, RootResult, RootStep,
};
use crate::hash::Hash256;
use crate::rejection::{BeaconChainError, NotFound, Rejection};
use crate::slot::Slot;
use vstd::prelude::*;

verus! {

/// The answers of a chain, all given in one state of it. `B` stands for its blocks.
pub struct ChainView<B, E> {
    /// The root of the head block and whether it is optimistic or invalid.
    pub head: Result<(Hash256, ExecutionOptimistic), E>,
    /// The block of the cached head and whether it is optimistic or invalid.
    pub head_block: Result<(B, ExecutionOptimistic), E>,
    pub genesis_block_root: Hash256,
    pub finalized_checkpoint: Checkpoint,
    pub justified_checkpoint: Checkpoint,
    pub checkpoint_status: spec_fn(Checkpoint) -> Result<(Slot, ExecutionOptimistic), Rejection<E>>,
    pub optimistic_head: Result<ExecutionOptimistic, E>,
    pub block_root_at_slot: spec_fn(Slot) -> Result<Option<Hash256>, E>,
    pub slots_per_epoch: u64,
    pub block_exists: spec_fn(Hash256) -> Result<bool, E>,
    pub optimistic_block: spec_fn(Hash256) -> Result<ExecutionOptimistic, E>,
    pub block_slot: spec_fn(Hash256) -> Result<Option<Slot>, E>,
    pub finalized_block: spec_fn(Hash256, Slot) -> Result<Finalized, E>,
    pub block: spec_fn(Hash256) -> Result<Option<FoundBlock<B>>, E>,
}

impl<B, E> ChainView<B, E> {
    /// What the root lookup of a checkpoint yields.
    pub open spec fn checkpoint_root(
        self,
        checkpoint: Checkpoint,
        finalized: Finalized,
    ) -> RootResult<E> {
        match (self.checkpoint_status)(checkpoint) {
            Ok((_, optimistic)) => Ok((checkpoint.root, optimistic, finalized)),
            Err(rejection) => Err(rejection),
        }
    }

    /// What the root lookup of a slot yields.
    pub open spec fn slot_root(self, slot: Slot) -> RootResult<E> {
        match (self.optimistic_head, (self.block_root_at_slot)(slot)) {
            (Err(e), _) => Err(Rejection::of_chain(e)),
            (_, Err(e)) => Err(Rejection::of_chain(e)),
            (_, Ok(None)) => Err(Rejection::no_block_at_slot(slot)),
            (Ok(optimistic), Ok(Some(root))) => Ok(
                (
                    root,
                    optimistic,
                    slot.0 <= self.finalized_checkpoint.epoch.first_slot(self.slots_per_epoch),
                ),
            ),
        }
    }

    /// What the root lookup of a root yields.
    pub open spec fn root_root(self, root: Hash256) -> RootResult<E> {
        if root.is_zero_root() {
            Err(Rejection::no_block_with_root(root))
        } else {
            match (
                (self.block_exists)(root),
                (self.optimistic_block)(root),
                (self.block_slot)(root),
            ) {
                (Err(e), _, _) => Err(
                    Rejection::BeaconChainError(BeaconChainError::DBError(e)),
                ),
                (Ok(false), _, _) => Err(Rejection::no_block_with_root(root)),
                (_, Err(e), _) => Err(
                    Rejection::BeaconChainError(BeaconChainError::ForkChoiceError(e)),
                ),
                (_, _, Err(e)) => Err(Rejection::of_chain(e)),
                (_, _, Ok(None)) => Err(Rejection::no_block_with_root(root)),
                (_, Ok(optimistic), Ok(Some(slot))) => match (self.finalized_block)(root, slot) {
                    Ok(finalized) => Ok((root, optimistic, finalized)),
                    Err(e) => Err(Rejection::of_chain(e)),
                },
            }
        }
    }

    /// What the root lookup of `id` yields.
    pub open spec fn root_of(self, id: BlockId) -> RootResult<E> {
        match id.0 {
            CoreBlockId::Head => match self.head {
                Ok((root, optimistic)) => Ok((root, optimistic, false)),
                Err(e) => Err(Rejection::of_chain(e)),
            },
            CoreBlockId::Genesis => Ok((self.genesis_block_root, false, true)),
            CoreBlockId::Finalized => self.checkpoint_root(self.finalized_checkpoint, true),
            CoreBlockId::Justified => self.checkpoint_root(self.justified_checkpoint, false),
            CoreBlockId::Slot(slot) => self.slot_root(slot),
            CoreBlockId::Root(root) => self.root_root(root),
        }
    }

    /// What the block lookup of `id` yields.
    pub open spec fn block_of(self, id: BlockId) -> BlockResult<B, E> {
        if id.0 is Head {
            match self.head_block {
                Ok((block, optimistic)) => Ok((block, optimistic, false)),
                Err(e) => Err(Rejection::of_chain(e)),
            }
        } else {
            match self.root_of(id) {
                Err(rejection) => Err(rejection),
                Ok((root, optimistic, finalized)) => match (self.block)(root) {
                    Err(e) => Err(Rejection::of_chain(e)),
                    Ok(None) => Err(Rejection::no_block_with_root(root)),
                    Ok(Some(found)) => if id.0 is Slot && found.slot != id.0->Slot_0 {
                        Err(Rejection::CustomNotFound(NotFound::SkippedSlot(id.0->Slot_0)))
                    } else {
                        Ok((found.block, optimistic, finalized))
                    },
                },
            }
        }
    }

    /// The step after `step`, with its question answered by this chain.
    pub open spec fn root_step(self, step: RootStep<E>) -> RootStep<E> {
        match step {
            RootStep::Done(_) => step,
            RootStep::Head(ask) => ask.after(self.head),
            RootStep::Genesis(ask) => ask.after(self.genesis_block_root),
            RootStep::FinalizedCheckpoint(ask) => ask.after(self.finalized_checkpoint),
            RootStep::JustifiedCheckpoint(ask) => ask.after(self.justified_checkpoint),
            RootStep::CheckpointStatus(ask) => ask.after((self.checkpoint_status)(ask.checkpoint)),
            RootStep::OptimisticHead(ask) => ask.after(self.optimistic_head),
            RootStep::RootAtSlot(ask) => ask.after((self.block_root_at_slot)(ask.slot)),
            RootStep::FinalizedEpoch(ask) => ask.after(
                self.finalized_checkpoint,
                self.slots_per_epoch,
            ),
            RootStep::BlockExists(ask) => ask.after((self.block_exists)(ask.root)),
            RootStep::OptimisticBlock(ask) => ask.after((self.optimistic_block)(ask.root)),
            RootStep::BlockSlot(ask) => ask.after((self.block_slot)(ask.root)),
            RootStep::FinalizedBlock(ask) => ask.after((self.finalized_block)(ask.root, ask.slot)),
        }
    }

    /// Where a root lookup at `step` ends, all its questions answered by this chain.
    pub open spec fn run_root(self, step: RootStep<E>) -> RootStep<E>
        decreases step.questions_left(),
    {
        if step is Done {
            step
        } else {
            self.run_root(self.root_step(step))
        }
    }

    /// The step after `step`, with its question answered by this chain.
    pub open spec fn block_step(self, step: BlockStep<B, E>) -> BlockStep<B, E> {
        match step {
            BlockStep::Done(_) => step,
            BlockStep::Head(ask) => ask.after(self.head_block),
            BlockStep::Root(ask) => ask.after(self.root_of(ask.id)),
            BlockStep::Block(ask) => ask.after((self.block)(ask.root)),
        }
    }

    /// Where a block lookup at `step` ends, all its questions answered by this chain.
    pub open spec fn run_block(self, step: BlockStep<B, E>) -> BlockStep<B, E>
        decreases step.questions_left(),
    {
        if step is Done {
            step
        } else {
            self.run_block(self.block_step(step))
        }
    }

    /// What the lookup of the blob sidecars of `id` yields, where `blobs` gives those of a root.
    pub open spec fn blobs_of<S>(
        self,
        id: BlockId,
        blobs: spec_fn(Hash256) -> Result<BlobSidecarList<S>, E>,
    ) -> BlobResult<S, E> {
        match self.root_of(id) {
            Err(rejection) => Err(rejection),
            Ok((root, _, _)) => match blobs(root) {
                Ok(list) => Ok(list),
                Err(e) => Err(Rejection::of_chain(e)),
            },
        }
    }

    /// Where a lookup of blob sidecars at `step` ends, its questions answered by this chain and by
    /// `blobs`.
    pub open spec fn run_blobs<S>(
        self,
        blobs: spec_fn(Hash256) -> Result<BlobSidecarList<S>, E>,
        step: BlobStep<S, E>,
    ) -> BlobResult<S, E> {
        match step {
            BlobStep::Done(result) => result,
            BlobStep::Blobs(ask) => ask.after(blobs(ask.root)),
            BlobStep::Root(ask) => match ask.after::<S, E>(self.root_of(ask.id)) {
                BlobStep::Blobs(ask) => ask.after(blobs(ask.root)),
                BlobStep::Done(result) => result,
                BlobStep::Root(_) => arbitrary(),
            },
        }
    }
}

/// A root lookup on a chain that does not change ends with exactly what that chain says of the
/// identifier.
pub proof fn root_lookup_is_correct<B, E>(id: BlockId, chain: ChainView<B, E>)
    ensures
        chain.run_root(id.first_root_step()) == RootStep::Done(chain.root_of(id)),
{
    reveal_with_fuel(ChainView::run_root, 6);
}

/// A block lookup on a chain that does not change ends with exactly what that chain says of the
/// identifier.
pub proof fn block_lookup_is_correct<B, E>(id: BlockId, chain: ChainView<B, E>)
    ensures
        chain.run_block(id.first_block_step()) == BlockStep::<B, E>::Done(chain.block_of(id)),
{
    reveal_with_fuel(ChainView::run_block, 4);
}

/// The blinded form of what a lookup of a full block yields.
pub open spec fn blinded_result<F, B, E>(
    result: BlockResult<F, E>,
    blind: spec_fn(F) -> B,
) -> BlockResult<B, E> {
    match result {
        Ok((block, optimistic, finalized)) => Ok((blind(block), optimistic, finalized)),
        Err(rejection) => Err(rejection),
    }
}

/// Whether `blinded` is the same chain as `full`, with `blind` giving the blinded form of a full
/// block: what it says of roots is the same, and its blocks are the blinded ones, at the same slots.
pub open spec fn is_blinded_chain<F, B, E>(
    blinded: ChainView<B, E>,
    full: ChainView<F, E>,
    blind: spec_fn(F) -> B,
) -> bool {
    &&& blinded.head == full.head
    &&& blinded.genesis_block_root == full.genesis_block_root
    &&& blinded.finalized_checkpoint == full.finalized_checkpoint
    &&& blinded.justified_checkpoint == full.justified_checkpoint
    &&& blinded.checkpoint_status == full.checkpoint_status
    &&& blinded.optimistic_head == full.optimistic_head
    &&& blinded.block_root_at_slot == full.block_root_at_slot
    &&& blinded.slots_per_epoch == full.slots_per_epoch
    &&& blinded.block_exists == full.block_exists
    &&& blinded.optimistic_block == full.optimistic_block
    &&& blinded.block_slot == full.block_slot
    &&& blinded.finalized_block == full.finalized_block
    &&& blinded.head_block == (match full.head_block {
        Ok((block, optimistic)) => Ok((blind(block), optimistic)),
        Err(e) => Err(e),
    })
    &&& forall|root: Hash256| #[trigger]
        (blinded.block)(root) == (match (full.block)(root) {
            Ok(Some(found)) => Ok(
                Some(FoundBlock { slot: found.slot, block: blind(found.block) }),
            ),
            Ok(None) => Ok(None),
            Err(e) => Err(e),
        })
}

/// The blinded and the full lookup of one identifier on one chain agree: they resolve it to the same
/// root, they are refused alike, and where they succeed the blinded block is the blinded form of
/// the full one, at the same slot, with the same flags.
pub proof fn blinded_and_full_lookups_agree<F, B, E>(
    id: BlockId,
    blinded: ChainView<B, E>,
    full: ChainView<F, E>,
    blind: spec_fn(F) -> B,
)
    requires
        is_blinded_chain(blinded, full, blind),
    ensures
        blinded.root_of(id) == full.root_of(id),
        blinded.block_of(id) == blinded_result(full.block_of(id), blind),
        blinded.run_block(id.first_block_step()) == BlockStep::<B, E>::Done(
            blinded_result(full.block_of(id), blind),
        ),
        full.run_block(id.first_block_step()) == BlockStep::<F, E>::Done(full.block_of(id)),
{
    block_lookup_is_correct(id, blinded);
    block_lookup_is_correct(id, full);
}

/// A lookup of blob sidecars on a chain that does not change ends with exactly the sidecars of the
/// root that the identifier stands for.
pub proof fn blob_lookup_is_correct<B, S, E>(
    id: BlockId,
    chain: ChainView<B, E>,
    blobs: spec_fn(Hash256) -> Result<BlobSidecarList<S>, E>,
)
    ensures
        chain.run_blobs(blobs, BlobStep::Root(AskBlobRoot { id })) == chain.blobs_of(id, blobs),
{
}

/// A filtered lookup of blob sidecars on a chain that does not change is refused exactly where the
/// lookup of all of them is, with the same refusal. Otherwise a sidecar is there if and only if
/// the block has it and its index was asked for, and with no indices given every sidecar is there.
pub proof fn filtered_blob_lookup_is_correct<B, S, E>(
    ask: AskBlobList,
    chain: ChainView<B, E>,
    blobs: spec_fn(Hash256) -> Result<BlobSidecarList<S>, E>,
    result: BlobResult<S, E>,
    sidecar: BlobSidecar<S>,
)
    requires
        ask.is_outcome(chain.blobs_of(ask.id, blobs), result),
    ensures
        match (chain.blobs_of(ask.id, blobs), result) {
            (Err(a), Err(b)) => a == b,
            (Ok(all), Ok(kept)) => match ask.indices {
                Some(indices) => kept@.contains(sidecar) <==> all@.contains(sidecar)
                    && indices@.contains(sidecar.index),
                None => kept@ == all@,
            },
            _ => false,
        },
{
    if let Ok(all) = chain.blobs_of(ask.id, blobs) {
        if let Some(indices) = ask.indices {
            crate::block_id::blobs::selected_holds_what_was_asked_for(all, indices@, sidecar);
        }
    }
}

/// A lookup by root that succeeds yields the root that was asked for, and that root is not zero.
pub proof fn root_lookup_by_root_yields_that_root<B, E>(root: Hash256, chain: ChainView<B, E>)
    ensures
        chain.root_of(BlockId(CoreBlockId::Root(root))) matches Ok((found, _, _)) ==> found == root
            && !root.is_zero_root(),
{
}

/// The zero root is never found, whatever the chain holds.
pub proof fn zero_root_is_never_found<B, E>(root: Hash256, chain: ChainView<B, E>)
    requires
        root.is_zero_root(),
    ensures
        chain.root_of(BlockId(CoreBlockId::Root(root))) == Err::<(Hash256, bool, bool), _>(
            Rejection::<E>::no_block_with_root(root),
        ),
        chain.block_of(BlockId(CoreBlockId::Root(root))) == Err::<(B, bool, bool), _>(
            Rejection::<E>::no_block_with_root(root),
        ),
{
}

/// The head is never final; the justified checkpoint is never final by itself; genesis and the
/// finalized checkpoint always are.
pub proof fn finality_of_named_blocks<B, E>(chain: ChainView<B, E>)
    ensures
        chain.root_of(BlockId(CoreBlockId::Head)) matches Ok((_, _, finalized)) ==> !finalized,
        chain.root_of(BlockId(CoreBlockId::Justified)) matches Ok((_, _, finalized)) ==> !finalized,
        chain.root_of(BlockId(CoreBlockId::Finalized)) matches Ok((_, _, finalized)) ==> finalized,
        chain.root_of(BlockId(CoreBlockId::Genesis)) == Ok::<(Hash256, bool, bool), Rejection<E>>(
            (chain.genesis_block_root, false, true),
        ),
{
}

/// If a slot is final then so is every earlier slot that holds a block.
pub proof fn finality_of_slots_is_downward_closed<B, E>(
    earlier: Slot,
    later: Slot,
    chain: ChainView<B, E>,
)
    requires
        earlier.0 <= later.0,
        chain.root_of(BlockId(CoreBlockId::Slot(later))) matches Ok((_, _, finalized))
            && finalized,
    ensures
        chain.root_of(BlockId(CoreBlockId::Slot(earlier))) matches Ok((_, _, finalized))
            ==> finalized,
{
}

/// A block lookup by slot that succeeds yields a block of that very slot.
pub proof fn block_lookup_by_slot_yields_that_slot<B, E>(slot: Slot, chain: ChainView<B, E>)
    ensures
        chain.block_of(BlockId(CoreBlockId::Slot(slot))) matches Ok((block, _, _)) ==> exists|
            root: Hash256,
        |
            #[trigger] (chain.block)(root) == Ok::<_, E>(Some(FoundBlock { slot, block })),
{
    if let Ok((block, _, _)) = chain.block_of(BlockId(CoreBlockId::Slot(slot))) {
        let root = chain.root_of(BlockId(CoreBlockId::Slot(slot)))->Ok_0.0;
        assert((chain.block)(root) == Ok::<_, E>(Some(FoundBlock { slot, block })));
    }
}

/// A lookup by root succeeds if and only if the root is not all zeros, the store holds it, fork
/// choice knows it and the chain has its block and says whether that is final. It yields the root,
/// what fork choice says of it, and what the chain says of its finality.
pub proof fn root_lookup_by_root_tells_what_the_chain_says<B, E>(
    root: Hash256,
    chain: ChainView<B, E>,
    yielded: Hash256,
    optimistic: ExecutionOptimistic,
    finalized: Finalized,
)
    ensures
        chain.run_root(BlockId(CoreBlockId::Root(root)).first_root_step()) == RootStep::<E>::Done(
            Ok((yielded, optimistic, finalized)),
        ) <==> {
            &&& yielded == root
            &&& root.0@ != Seq::new(32, |i: int| 0u8)
            &&& (chain.block_exists)(root) == Ok::<_, E>(true)
            &&& (chain.optimistic_block)(root) == Ok::<_, E>(optimistic)
            &&& (chain.block_slot)(root) is Ok
            &&& (chain.block_slot)(root)->Ok_0 is Some
            &&& (chain.finalized_block)(root, (chain.block_slot)(root)->Ok_0->0) == Ok::<_, E>(
                finalized,
            )
        },
{
    root_lookup_is_correct(BlockId(CoreBlockId::Root(root)), chain);
    crate::hash::zero_root_is_all_zeros(root, 0);
}

/// On two chains that say the same of a root but for its finality, a lookup by that root that
/// succeeds on both yields the same root and the same optimistic flag, and on each the finality
/// that the chain tells.
pub proof fn finality_of_a_root_is_the_chains_own_answer<B, E>(
    root: Hash256,
    slot: Slot,
    one: ChainView<B, E>,
    other: ChainView<B, E>,
    finalized_one: Finalized,
    finalized_other: Finalized,
    optimistic: ExecutionOptimistic,
)
    requires
        root.0@ != Seq::new(32, |i: int| 0u8),
        (one.block_exists)(root) == Ok::<_, E>(true),
        (other.block_exists)(root) == Ok::<_, E>(true),
        (one.optimistic_block)(root) == Ok::<_, E>(optimistic),
        (other.optimistic_block)(root) == Ok::<_, E>(optimistic),
        (one.block_slot)(root) == Ok::<_, E>(Some(slot)),
        (other.block_slot)(root) == Ok::<_, E>(Some(slot)),
        (one.finalized_block)(root, slot) == Ok::<_, E>(finalized_one),
        (other.finalized_block)(root, slot) == Ok::<_, E>(finalized_other),
    ensures
        one.run_root(BlockId(CoreBlockId::Root(root)).first_root_step()) == RootStep::<E>::Done(
            Ok((root, optimistic, finalized_one)),
        ),
        other.run_root(BlockId(CoreBlockId::Root(root)).first_root_step()) == RootStep::<E>::Done(
            Ok((root, optimistic, finalized_other)),
        ),
{
    root_lookup_by_root_tells_what_the_chain_says(root, one, root, optimistic, finalized_one);
    root_lookup_by_root_tells_what_the_chain_says(root, other, root, optimistic, finalized_other);
}

/// A lookup by slot succeeds if and only if the chain knows the state of its head and has a block at
/// the slot. It yields that block's root, what the chain says of the head, and final if and only if
/// the slot is at or before the start of the finalized epoch.
pub proof fn root_lookup_by_slot_tells_what_the_chain_says<B, E>(
    slot: Slot,
    chain: ChainView<B, E>,
    yielded: Hash256,
    optimistic: ExecutionOptimistic,
    finalized: Finalized,
)
    ensures
        chain.run_root(BlockId(CoreBlockId::Slot(slot)).first_root_step()) == RootStep::<E>::Done(
            Ok((yielded, optimistic, finalized)),
        ) <==> {
            &&& chain.optimistic_head == Ok::<_, E>(optimistic)
            &&& (chain.block_root_at_slot)(slot) == Ok::<_, E>(Some(yielded))
            &&& finalized <==> slot.0 <= chain.finalized_checkpoint.epoch.0 * chain.slots_per_epoch
        },
{
    root_lookup_is_correct(BlockId(CoreBlockId::Slot(slot)), chain);
    crate::slot::first_slot_follows_the_earlier_epochs(
        chain.finalized_checkpoint.epoch,
        slot,
        chain.slots_per_epoch,
    );
}

/// The head, the genesis block and the two checkpoints are found with the roots and the optimistic
/// flags that the chain has for them; of these the genesis block and the finalized checkpoint are
/// final, and the other two are not.
pub proof fn root_lookup_by_name_tells_what_the_chain_says<B, E>(
    chain: ChainView<B, E>,
    yielded: Hash256,
    optimistic: ExecutionOptimistic,
    finalized: Finalized,
)
    ensures
        chain.run_root(BlockId(CoreBlockId::Head).first_root_step()) == RootStep::<E>::Done(
            Ok((yielded, optimistic, finalized)),
        ) <==> !finalized && chain.head == Ok::<_, E>((yielded, optimistic)),
        chain.run_root(BlockId(CoreBlockId::Genesis).first_root_step()) == RootStep::<E>::Done(
            Ok((yielded, optimistic, finalized)),
        ) <==> finalized && !optimistic && yielded == chain.genesis_block_root,
        chain.run_root(BlockId(CoreBlockId::Finalized).first_root_step()) == RootStep::<E>::Done(
            Ok((yielded, optimistic, finalized)),
        ) <==> {
            &&& finalized
            &&& yielded == chain.finalized_checkpoint.root
            &&& (chain.checkpoint_status)(chain.finalized_checkpoint) is Ok
            &&& (chain.checkpoint_status)(chain.finalized_checkpoint)->Ok_0.1 == optimistic
        },
        chain.run_root(BlockId(CoreBlockId::Justified).first_root_step()) == RootStep::<E>::Done(
            Ok((yielded, optimistic, finalized)),
        ) <==> {
            &&& !finalized
            &&& yielded == chain.justified_checkpoint.root
            &&& (chain.checkpoint_status)(chain.justified_checkpoint) is Ok
            &&& (chain.checkpoint_status)(chain.justified_checkpoint)->Ok_0.1 == optimistic
        },
{
    root_lookup_is_correct(BlockId(CoreBlockId::Head), chain);
    root_lookup_is_correct(BlockId(CoreBlockId::Genesis), chain);
    root_lookup_is_correct(BlockId(CoreBlockId::Finalized), chain);
    root_lookup_is_correct(BlockId(CoreBlockId::Justified), chain);
}

/// The lookup of the head's block yields the chain's block of the head, optimistic exactly where the
/// chain has not vouched for the head, and never final.
pub proof fn head_block_is_optimistic_as_the_chain_says<B, E>(
    chain: ChainView<B, E>,
    block: B,
    optimistic: ExecutionOptimistic,
    finalized: Finalized,
)
    ensures
        chain.run_block(BlockId(CoreBlockId::Head).first_block_step()) == BlockStep::<B, E>::Done(
            Ok((block, optimistic, finalized)),
        ) <==> !finalized && chain.head_block == Ok::<_, E>((block, optimistic)),
{
    block_lookup_is_correct(BlockId(CoreBlockId::Head), chain);
}

/// The lookup of any other block succeeds if and only if the lookup of its root does, the chain has
/// the block with that root, and it is of the slot that was named, where one was. It yields that
/// block with the flags of its root.
pub proof fn block_is_found_by_its_root<B, E>(
    id: BlockId,
    chain: ChainView<B, E>,
    block: B,
    optimistic: ExecutionOptimistic,
    finalized: Finalized,
)
    requires
        id.0 != CoreBlockId::Head,
    ensures
        chain.run_block(id.first_block_step()) == BlockStep::<B, E>::Done(
            Ok((block, optimistic, finalized)),
        ) <==> ({
            let looked_up = chain.run_root(id.first_root_step());
            let root = looked_up->Done_0->Ok_0.0;
            let stored = (chain.block)(root);
            &&& looked_up == RootStep::<E>::Done(Ok((root, optimistic, finalized)))
            &&& stored is Ok && stored->Ok_0 is Some
            &&& stored->Ok_0->0.block == block
            &&& id.0 is Slot ==> stored->Ok_0->0.slot.0 == id.0->Slot_0.0
        }),
{
    block_lookup_is_correct(id, chain);
    root_lookup_is_correct(id, chain);
}

} // verus!
