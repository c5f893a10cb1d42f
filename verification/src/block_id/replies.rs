//! How the outcome of a lookup depends on each single reply of the chain.
//!
//! Each law speaks of every question of its kind and every reply to it: what the reply tells comes
//! out unchanged, and a change of the reply changes the outcome in that and in nothing else.
use crate::block_id::blobs::{AskBlobRoot, AskBlobs, BlobSidecarList, BlobStep};
use crate::block_id::block::{AskBlock, AskBlockRoot, AskHeadBlock, BlockStep, FoundBlock};
use crate::block_id::{
    AskBlockExists, AskBlockSlot, AskCheckpointStatus, AskFinalizedBlock, AskFinalizedCheckpoint,
    AskFinalizedEpoch, AskGenesis, AskHead, AskJustifiedCheckpoint, AskOptimisticBlock,
    AskOptimisticHead, AskRootAtSlot, BlockId, Checkpoint, CoreBlockId, ExecutionOptimistic,
    Finalized, RootStep,
};
use crate::hash::Hash256;
use crate::rejection::{BeaconChainError, NotFound, Rejection};
use crate::slot::Slot;
use vstd::prelude::*;

verus! {

/// The root that the chain has for the head is what the lookup finds, optimistic if and only if the
/// chain says so, and never final; it fails if and only if the chain does, with the chain's error.
pub proof fn head_reply_decides<E>(
    ask: AskHead,
    reply: Result<(Hash256, ExecutionOptimistic), E>,
    root: Hash256,
    optimistic: ExecutionOptimistic,
    finalized: Finalized,
    error: E,
)
    ensures
        ask.after(reply) == RootStep::<E>::Done(
            Ok((root, optimistic, finalized)),
        ) <==> !finalized && reply == Ok::<_, E>(
            (root, optimistic),
        ),
        ask.after(reply) == RootStep::<E>::Done(
            Err(Rejection::BeaconChainError(BeaconChainError::Chain(error))),
        ) <==> reply == Err::<(Hash256, ExecutionOptimistic), E>(error),
{
}

/// The genesis block is found with the root that the chain has for it, final and not optimistic.
pub proof fn genesis_reply_decides<E>(
    ask: AskGenesis,
    reply: Hash256,
    root: Hash256,
    optimistic: ExecutionOptimistic,
    finalized: Finalized,
)
    ensures
        ask.after::<E>(reply) == RootStep::<E>::Done(
            Ok((root, optimistic, finalized)),
        ) <==> root == reply && !optimistic
            && finalized,
{
}

/// Both checkpoints are asked about as the chain has them, and only the finalized one counts as
/// final.
pub proof fn checkpoints_are_asked_about_unchanged<E>(
    finalized: AskFinalizedCheckpoint,
    justified: AskJustifiedCheckpoint,
    checkpoint: Checkpoint,
    ask: AskCheckpointStatus,
)
    ensures
        finalized.after::<E>(checkpoint) == RootStep::<E>::CheckpointStatus(ask)
            <==> ask.checkpoint == checkpoint && ask.finalized,
        justified.after::<E>(checkpoint) == RootStep::<E>::CheckpointStatus(ask)
            <==> ask.checkpoint == checkpoint && !ask.finalized,
        finalized.after::<E>(checkpoint) is CheckpointStatus,
        justified.after::<E>(checkpoint) is CheckpointStatus,
{
}

/// A checkpoint is found with its own root and finality, optimistic if and only if the chain says
/// so, whatever slot it stands at; a refusal is the lookup's own refusal.
pub proof fn checkpoint_reply_decides<E>(
    ask: AskCheckpointStatus,
    reply: Result<(Slot, ExecutionOptimistic), Rejection<E>>,
    root: Hash256,
    optimistic: ExecutionOptimistic,
    finalized: Finalized,
    rejection: Rejection<E>,
)
    ensures
        ask.after(reply) == RootStep::<E>::Done(
            Ok((root, optimistic, finalized)),
        ) <==> {
            &&& root == ask.checkpoint.root
            &&& finalized == ask.finalized
            &&& reply is Ok
            &&& reply->Ok_0.1 == optimistic
        },
        ask.after(reply) == RootStep::<E>::Done(Err(rejection)) <==> reply == Err::<
            (Slot, ExecutionOptimistic),
            _,
        >(rejection),
{
}

/// The lookup of a slot goes on with that slot and with what the chain says of the head, and fails if
/// and only if the chain does.
pub proof fn optimistic_head_reply_decides<E>(
    ask: AskOptimisticHead,
    reply: Result<ExecutionOptimistic, E>,
    next: AskRootAtSlot,
    error: E,
)
    ensures
        ask.after(reply) == RootStep::<E>::RootAtSlot(next) <==> next.slot == ask.slot && reply
            == Ok::<_, E>(next.execution_optimistic),
        ask.after(reply) == RootStep::<E>::Done(
            Err(Rejection::BeaconChainError(BeaconChainError::Chain(error))),
        ) <==> reply == Err::<ExecutionOptimistic, E>(error),
{
}

/// The lookup of a slot goes on with the root that the chain has there and with all it knew before.
/// It is not found if and only if the chain has none, and fails if and only if the chain does.
pub proof fn root_at_slot_reply_decides<E>(
    ask: AskRootAtSlot,
    reply: Result<Option<Hash256>, E>,
    next: AskFinalizedEpoch,
    error: E,
)
    ensures
        ask.after(reply) == RootStep::<E>::FinalizedEpoch(next) <==> {
            &&& next.slot == ask.slot
            &&& next.execution_optimistic == ask.execution_optimistic
            &&& reply == Ok::<_, E>(Some(next.root))
        },
        ask.after(reply) == RootStep::<E>::Done(
            Err(Rejection::CustomNotFound(NotFound::BlockAtSlot(ask.slot))),
        ) <==> reply == Ok::<Option<Hash256>, E>(None),
        ask.after(reply) == RootStep::<E>::Done(
            Err(Rejection::BeaconChainError(BeaconChainError::Chain(error))),
        ) <==> reply == Err::<Option<Hash256>, E>(error),
{
}

/// A slot is found with its root and its optimistic flag, and is final if and only if it is at or
/// before the start of the finalized epoch, whatever the root of the checkpoint.
pub proof fn finalized_epoch_reply_decides<E>(
    ask: AskFinalizedEpoch,
    checkpoint: Checkpoint,
    slots_per_epoch: u64,
    root: Hash256,
    optimistic: ExecutionOptimistic,
    finalized: Finalized,
)
    ensures
        ask.after::<E>(checkpoint, slots_per_epoch) == RootStep::<E>::Done(
            Ok((root, optimistic, finalized)),
        ) <==> {
            &&& root == ask.root
            &&& optimistic == ask.execution_optimistic
            &&& finalized <==> ask.slot.0 <= checkpoint.epoch.0 * slots_per_epoch
        },
{
    crate::slot::first_slot_follows_the_earlier_epochs(checkpoint.epoch, ask.slot, slots_per_epoch);
}

/// The lookup of a root goes on with that root if and only if the store holds it; it is not found if
/// and only if the store does not, and the store's failure is the lookup's failure.
pub proof fn block_exists_reply_decides<E>(
    ask: AskBlockExists,
    reply: Result<bool, E>,
    next: AskOptimisticBlock,
    error: E,
)
    ensures
        ask.after(reply) == RootStep::<E>::OptimisticBlock(next) <==> next.root == ask.root && reply
            == Ok::<_, E>(true),
        ask.after(reply) == RootStep::<E>::Done(
            Err(Rejection::CustomNotFound(NotFound::BlockWithRoot(ask.root))),
        ) <==> reply == Ok::<_, E>(false),
        ask.after(reply) == RootStep::<E>::Done(
            Err(Rejection::BeaconChainError(BeaconChainError::DBError(error))),
        ) <==> reply == Err::<bool, E>(error),
{
}

/// The lookup of a root goes on with that root and with what fork choice says of it, and fails if
/// and only if fork choice does.
pub proof fn optimistic_block_reply_decides<E>(
    ask: AskOptimisticBlock,
    reply: Result<ExecutionOptimistic, E>,
    next: AskBlockSlot,
    error: E,
)
    ensures
        ask.after(reply) == RootStep::<E>::BlockSlot(next) <==> next.root == ask.root && reply
            == Ok::<_, E>(next.execution_optimistic),
        ask.after(reply) == RootStep::<E>::Done(
            Err(Rejection::BeaconChainError(BeaconChainError::ForkChoiceError(error))),
        ) <==> reply == Err::<ExecutionOptimistic, E>(error),
{
}

/// The lookup of a root goes on with that root, its flag and the slot of its block. It is not found
/// if and only if there is no block, and fails if and only if the chain does.
pub proof fn block_slot_reply_decides<E>(
    ask: AskBlockSlot,
    reply: Result<Option<Slot>, E>,
    next: AskFinalizedBlock,
    error: E,
)
    ensures
        ask.after(reply) == RootStep::<E>::FinalizedBlock(next) <==> {
            &&& next.root == ask.root
            &&& next.execution_optimistic == ask.execution_optimistic
            &&& reply == Ok::<_, E>(Some(next.slot))
        },
        ask.after(reply) == RootStep::<E>::Done(
            Err(Rejection::CustomNotFound(NotFound::BlockWithRoot(ask.root))),
        ) <==> reply == Ok::<Option<Slot>, E>(None),
        ask.after(reply) == RootStep::<E>::Done(
            Err(Rejection::BeaconChainError(BeaconChainError::Chain(error))),
        ) <==> reply == Err::<Option<Slot>, E>(error),
{
}

/// A root is found with its optimistic flag, and is final if and only if the chain says so: the two
/// flags do not depend on each other. It fails if and only if the chain does.
pub proof fn finalized_block_reply_decides<E>(
    ask: AskFinalizedBlock,
    reply: Result<Finalized, E>,
    root: Hash256,
    optimistic: ExecutionOptimistic,
    finalized: Finalized,
    error: E,
)
    ensures
        ask.after(reply) == RootStep::<E>::Done(
            Ok((root, optimistic, finalized)),
        ) <==> {
            &&& root == ask.root
            &&& optimistic == ask.execution_optimistic
            &&& reply == Ok::<_, E>(finalized)
        },
        ask.after(reply) == RootStep::<E>::Done(
            Err(Rejection::BeaconChainError(BeaconChainError::Chain(error))),
        ) <==> reply == Err::<Finalized, E>(error),
{
}

/// Of two blocks about which the chain says the opposite, one is final and the other is not, and that
/// is all in which the lookups differ.
pub proof fn opposite_replies_about_finality_differ_in_the_flag<E>(
    ask: AskFinalizedBlock,
    reply: Finalized,
)
    ensures
        ({
            let one = ask.after(Ok::<_, E>(reply));
            let other = ask.after(Ok::<_, E>(!reply));
            &&& one is Done && one->Done_0 is Ok
            &&& other is Done && other->Done_0 is Ok
            &&& one->Done_0->Ok_0.0 == other->Done_0->Ok_0.0
            &&& one->Done_0->Ok_0.1 == other->Done_0->Ok_0.1
            &&& one->Done_0->Ok_0.2 == reply
            &&& other->Done_0->Ok_0.2 == !reply
        }),
{
}

/// The head and the checkpoints are asked for by name, a slot by its number, and a root by its
/// bytes, unless they are all zero: then it is not found and nothing is asked.
pub proof fn first_question_names_the_identifier<E>(id: BlockId, slot: Slot, root: Hash256)
    ensures
        id.first_root_step::<E>() is Head <==> id.0 == CoreBlockId::Head,
        id.first_root_step::<E>() is Genesis <==> id.0 == CoreBlockId::Genesis,
        id.first_root_step::<E>() is FinalizedCheckpoint <==> id.0 == CoreBlockId::Finalized,
        id.first_root_step::<E>() is JustifiedCheckpoint <==> id.0 == CoreBlockId::Justified,
        id.first_root_step::<E>() == RootStep::<E>::OptimisticHead(AskOptimisticHead { slot })
            <==> id.0 == CoreBlockId::Slot(slot),
        id.first_root_step::<E>() == RootStep::<E>::BlockExists(AskBlockExists { root }) <==> id.0
            == CoreBlockId::Root(root) && root.0@ != Seq::new(32, |i: int| 0u8),
        id.first_root_step::<E>() == RootStep::<E>::Done(
            Err(Rejection::CustomNotFound(NotFound::BlockWithRoot(root))),
        ) <==> id.0 == CoreBlockId::Root(root) && root.0@ == Seq::new(32, |i: int| 0u8),
{
    crate::hash::zero_root_is_all_zeros(root, 0);
    if let CoreBlockId::Root(r) = id.0 {
        crate::hash::zero_root_is_all_zeros(r, 0);
    }
}

/// The block of the head is found as the chain has it, optimistic if and only if the chain says so of
/// the head, for either answer, and never final. It fails if and only if the chain does.
pub proof fn head_block_reply_decides<B, E>(
    ask: AskHeadBlock,
    reply: Result<(B, ExecutionOptimistic), E>,
    block: B,
    optimistic: ExecutionOptimistic,
    finalized: Finalized,
    error: E,
)
    ensures
        ask.after(reply) == BlockStep::<B, E>::Done(Ok((block, optimistic, finalized)))
            <==> !finalized && reply == Ok::<_, E>((block, optimistic)),
        ask.after(reply) == BlockStep::<B, E>::Done(
            Err(Rejection::BeaconChainError(BeaconChainError::Chain(error))),
        ) <==> reply == Err::<(B, ExecutionOptimistic), E>(error),
{
}

/// The blocks of a head that is vouched for and of one that is not are found alike but for the
/// optimistic flag.
pub proof fn opposite_replies_about_the_head_differ_in_the_flag<B, E>(
    ask: AskHeadBlock,
    block: B,
    optimistic: ExecutionOptimistic,
)
    ensures
        ({
            let one = ask.after(Ok::<_, E>((block, optimistic)));
            let other = ask.after(Ok::<_, E>((block, !optimistic)));
            &&& one is Done && one->Done_0 is Ok
            &&& other is Done && other->Done_0 is Ok
            &&& one->Done_0->Ok_0.0 == block && other->Done_0->Ok_0.0 == block
            &&& one->Done_0->Ok_0.1 == optimistic
            &&& other->Done_0->Ok_0.1 == !optimistic
            &&& !one->Done_0->Ok_0.2 && !other->Done_0->Ok_0.2
        }),
{
}

/// The lookup of a block begins with the head's block for the head alone, and with the root of the
/// very identifier for any other.
pub proof fn first_block_question_names_the_identifier<B, E>(id: BlockId, other: BlockId)
    ensures
        id.first_block_step::<B, E>() is Head <==> id.0 == CoreBlockId::Head,
        id.first_block_step::<B, E>() == BlockStep::<B, E>::Root(AskBlockRoot { id: other })
            <==> other == id && id.0 != CoreBlockId::Head,
{
}

/// A block is asked for by the root that was found, with the flags that were found, and held to a
/// slot if and only if the identifier names that slot. A refusal is the lookup's own refusal.
pub proof fn block_root_reply_decides<B, E>(
    ask: AskBlockRoot,
    reply: Result<(Hash256, ExecutionOptimistic, Finalized), Rejection<E>>,
    next: AskBlock,
    rejection: Rejection<E>,
)
    ensures
        ask.after::<B, E>(reply) == BlockStep::<B, E>::Block(next) <==> {
            &&& reply == Ok::<_, Rejection<E>>(
                (next.root, next.execution_optimistic, next.finalized),
            )
            &&& match next.slot {
                Some(slot) => ask.id.0 == CoreBlockId::Slot(slot),
                None => !(ask.id.0 is Slot),
            }
        },
        ask.after::<B, E>(reply) == BlockStep::<B, E>::Done(Err(rejection)) <==> reply == Err::<
            (Hash256, ExecutionOptimistic, Finalized),
            _,
        >(rejection),
{
}

/// A block is found with its flags if and only if the chain has it and it is of the slot that was
/// named, where one was. Otherwise the named slot was skipped, or there is no such block, or the
/// chain has failed.
pub proof fn block_reply_decides<B, E>(
    ask: AskBlock,
    reply: Result<Option<FoundBlock<B>>, E>,
    block: B,
    optimistic: ExecutionOptimistic,
    finalized: Finalized,
    slot: Slot,
    error: E,
)
    ensures
        ask.after(reply) == BlockStep::<B, E>::Done(Ok((block, optimistic, finalized))) <==> {
            &&& optimistic == ask.execution_optimistic
            &&& finalized == ask.finalized
            &&& reply is Ok && reply->Ok_0 is Some
            &&& reply->Ok_0->0.block == block
            &&& ask.slot is None || ask.slot == Some(reply->Ok_0->0.slot)
        },
        ask.after(reply) == BlockStep::<B, E>::Done(
            Err(Rejection::CustomNotFound(NotFound::SkippedSlot(slot))),
        ) <==> {
            &&& reply is Ok && reply->Ok_0 is Some
            &&& ask.slot == Some(slot)
            &&& reply->Ok_0->0.slot.0 != slot.0
        },
        ask.after(reply) == BlockStep::<B, E>::Done(
            Err(Rejection::CustomNotFound(NotFound::BlockWithRoot(ask.root))),
        ) <==> reply == Ok::<Option<FoundBlock<B>>, E>(None),
        ask.after(reply) == BlockStep::<B, E>::Done(
            Err(Rejection::BeaconChainError(BeaconChainError::Chain(error))),
        ) <==> reply == Err::<Option<FoundBlock<B>>, E>(error),
{
}

/// Blob sidecars are asked for by the root that was found, whatever its flags, and come out as the
/// chain has them. A refusal of the root and a failure of the chain are the lookup's own.
pub proof fn blob_replies_decide<B, E>(
    ask: AskBlobRoot,
    root_reply: Result<(Hash256, ExecutionOptimistic, Finalized), Rejection<E>>,
    next: AskBlobs,
    rejection: Rejection<E>,
    blobs_reply: Result<BlobSidecarList<B>, E>,
    list: BlobSidecarList<B>,
    error: E,
)
    ensures
        ask.after::<B, E>(root_reply) == BlobStep::<B, E>::Blobs(next) <==> root_reply is Ok
            && root_reply->Ok_0.0 == next.root,
        ask.after::<B, E>(root_reply) == BlobStep::<B, E>::Done(Err(rejection)) <==> root_reply
            == Err::<(Hash256, ExecutionOptimistic, Finalized), _>(rejection),
        next.after(blobs_reply) == Ok::<_, Rejection<E>>(list) <==> blobs_reply == Ok::<_, E>(list),
        next.after(blobs_reply) == Err::<BlobSidecarList<B>, _>(
            Rejection::<E>::BeaconChainError(BeaconChainError::Chain(error)),
        ) <==> blobs_reply == Err::<BlobSidecarList<B>, E>(error),
{
}

} // verus!
