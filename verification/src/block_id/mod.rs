//! Block identifiers, and how each is resolved to a block root.
//!
//! A lookup needs several facts that only the chain knows, some of them from disk. It is written
//! as a series of steps: a step either asks one question, and has an `answer` method that takes
//! the chain's answer to the next step, or it is `Done` with the outcome of the lookup.
pub mod blobs;
pub mod block;
pub mod laws;
pub mod merkle;
pub mod replies;

use crate::hash::Hash256;
use crate::rejection::{BeaconChainError, NotFound, Rejection};
use crate::slot::{Epoch, Slot};
use vstd::prelude::*;

verus! {

/// The ways to name a block.
#[derive(Clone, Copy, Debug)]
pub enum CoreBlockId {
    Head,
    Genesis,
    Finalized,
    Justified,
    Slot(Slot),
    Root(Hash256),
}

/// Wraps a `CoreBlockId` and provides a simple way to obtain a block or root for it.
#[derive(Clone, Copy, Debug)]
pub struct BlockId(pub CoreBlockId);

/// Whether the execution layer has not vouched for a block yet.
pub type ExecutionOptimistic = bool;

/// Whether a block is final.
pub type Finalized = bool;

/// A checkpoint: the epoch and the root of the block at its boundary.
#[derive(Clone, Copy, Debug)]
pub struct Checkpoint {
    pub epoch: Epoch,
    pub root: Hash256,
}

/// The outcome of a root lookup.
pub type RootResult<E> = Result<(Hash256, ExecutionOptimistic, Finalized), Rejection<E>>;

/// Asks for the root of the head block and whether it is optimistic or invalid.
#[derive(Debug)]
pub struct AskHead;

/// Asks for the root of the genesis block.
#[derive(Debug)]
pub struct AskGenesis;

/// Asks for the finalized checkpoint of the cached head.
#[derive(Debug)]
pub struct AskFinalizedCheckpoint;

/// Asks for the justified checkpoint of the cached head.
#[derive(Debug)]
pub struct AskJustifiedCheckpoint;

/// Asks for the slot of the block at `checkpoint` and whether that block is optimistic.
#[derive(Debug)]
pub struct AskCheckpointStatus {
    pub checkpoint: Checkpoint,
    pub finalized: Finalized,
}

/// Asks whether the head is optimistic or invalid.
#[derive(Debug)]
pub struct AskOptimisticHead {
    pub slot: Slot,
}

/// Asks for the root of the block at `slot`, not of an earlier one where `slot` was skipped.
#[derive(Debug)]
pub struct AskRootAtSlot {
    pub slot: Slot,
    pub execution_optimistic: ExecutionOptimistic,
}

/// Asks for the finalized checkpoint of the cached head and the number of slots per epoch.
#[derive(Debug)]
pub struct AskFinalizedEpoch {
    pub slot: Slot,
    pub root: Hash256,
    pub execution_optimistic: ExecutionOptimistic,
}

/// Asks whether the store holds the block with root `root`.
#[derive(Debug)]
pub struct AskBlockExists {
    pub root: Hash256,
}

/// Asks whether the block with root `root` is optimistic or invalid.
#[derive(Debug)]
pub struct AskOptimisticBlock {
    pub root: Hash256,
}

/// Asks for the blinded block with root `root`, of which only the slot matters.
#[derive(Debug)]
pub struct AskBlockSlot {
    pub root: Hash256,
    pub execution_optimistic: ExecutionOptimistic,
}

/// Asks whether the block with root `root` at `slot` is final.
#[derive(Debug)]
pub struct AskFinalizedBlock {
    pub root: Hash256,
    pub slot: Slot,
    pub execution_optimistic: ExecutionOptimistic,
}

/// A step of a root lookup.
#[derive(Debug)]
pub enum RootStep<E> {
    Done(RootResult<E>),
    Head(AskHead),
    Genesis(AskGenesis),
    FinalizedCheckpoint(AskFinalizedCheckpoint),
    JustifiedCheckpoint(AskJustifiedCheckpoint),
    CheckpointStatus(AskCheckpointStatus),
    OptimisticHead(AskOptimisticHead),
    RootAtSlot(AskRootAtSlot),
    FinalizedEpoch(AskFinalizedEpoch),
    BlockExists(AskBlockExists),
    OptimisticBlock(AskOptimisticBlock),
    BlockSlot(AskBlockSlot),
    FinalizedBlock(AskFinalizedBlock),
}

impl<E> RootStep<E> {
    /// The largest number of questions that a lookup at this step can still ask.
    pub open spec fn questions_left(self) -> nat {
        match self {
            RootStep::Done(_) => 0,
            RootStep::Head(_) => 1,
            RootStep::Genesis(_) => 1,
            RootStep::FinalizedCheckpoint(_) => 2,
            RootStep::JustifiedCheckpoint(_) => 2,
            RootStep::CheckpointStatus(_) => 1,
            RootStep::OptimisticHead(_) => 3,
            RootStep::RootAtSlot(_) => 2,
            RootStep::FinalizedEpoch(_) => 1,
            RootStep::BlockExists(_) => 4,
            RootStep::OptimisticBlock(_) => 3,
            RootStep::BlockSlot(_) => 2,
            RootStep::FinalizedBlock(_) => 1,
        }
    }
}

impl BlockId {
    pub fn from_slot(slot: Slot) -> (id: Self)
        ensures
            id.0 == CoreBlockId::Slot(slot),
    {
        Self(CoreBlockId::Slot(slot))
    }

    pub fn from_root(root: Hash256) -> (id: Self)
        ensures
            id.0 == CoreBlockId::Root(root),
    {
        Self(CoreBlockId::Root(root))
    }

    /// The first step of the root lookup for this identifier.
    pub open spec fn first_root_step<E>(self) -> RootStep<E> {
        match self.0 {
            CoreBlockId::Head => RootStep::Head(AskHead),
            CoreBlockId::Genesis => RootStep::Genesis(AskGenesis),
            CoreBlockId::Finalized => RootStep::FinalizedCheckpoint(AskFinalizedCheckpoint),
            CoreBlockId::Justified => RootStep::JustifiedCheckpoint(AskJustifiedCheckpoint),
            CoreBlockId::Slot(slot) => RootStep::OptimisticHead(AskOptimisticHead { slot }),
            CoreBlockId::Root(root) => if root.is_zero_root() {
                RootStep::Done(Err(Rejection::no_block_with_root(root)))
            } else {
                RootStep::BlockExists(AskBlockExists { root })
            },
        }
    }

    /// Begins the lookup of the block root identified by `self`.
    pub fn root<E>(&self) -> (step: RootStep<E>)
        ensures
            step == self.first_root_step::<E>(),
            step.questions_left() <= 4,
    {
        match self.0 {
            CoreBlockId::Head => RootStep::Head(AskHead),
            CoreBlockId::Genesis => RootStep::Genesis(AskGenesis),
            CoreBlockId::Finalized => RootStep::FinalizedCheckpoint(AskFinalizedCheckpoint),
            CoreBlockId::Justified => RootStep::JustifiedCheckpoint(AskJustifiedCheckpoint),
            CoreBlockId::Slot(slot) => RootStep::OptimisticHead(AskOptimisticHead { slot }),
            CoreBlockId::Root(root) => {
                // This matches the behaviour of other consensus clients (e.g. Teku).
                if root.is_zero() {
                    return RootStep::Done(
                        Err(Rejection::CustomNotFound(NotFound::BlockWithRoot(root))),
                    );
                }
                RootStep::BlockExists(AskBlockExists { root })
            },
        }
    }
}

impl AskHead {
    /// The step that follows `reply`: the head is never final.
    pub open spec fn after<E>(self, reply: Result<(Hash256, ExecutionOptimistic), E>) -> RootStep<
        E,
    > {
        match reply {
            Ok((root, optimistic)) => RootStep::Done(Ok((root, optimistic, false))),
            Err(e) => RootStep::Done(Err(Rejection::of_chain(e))),
        }
    }

    pub fn answer<E>(self, reply: Result<(Hash256, ExecutionOptimistic), E>) -> (step: RootStep<E>)
        ensures
            step == self.after(reply),
            step.questions_left() < RootStep::<E>::Head(self).questions_left(),
    {
        match reply {
            Ok((root, optimistic)) => RootStep::Done(Ok((root, optimistic, false))),
            Err(e) => RootStep::Done(
                Err(Rejection::BeaconChainError(BeaconChainError::Chain(e))),
            ),
        }
    }
}

impl AskGenesis {
    /// The step that follows `root`: the genesis block is final and never optimistic.
    pub open spec fn after<E>(self, root: Hash256) -> RootStep<E> {
        RootStep::Done(Ok((root, false, true)))
    }

    pub fn answer<E>(self, root: Hash256) -> (step: RootStep<E>)
        ensures
            step == self.after::<E>(root),
            step.questions_left() < RootStep::<E>::Genesis(self).questions_left(),
    {
        RootStep::Done(Ok((root, false, true)))
    }
}

impl AskFinalizedCheckpoint {
    /// The step that follows `checkpoint`.
    pub open spec fn after<E>(self, checkpoint: Checkpoint) -> RootStep<E> {
        RootStep::CheckpointStatus(AskCheckpointStatus { checkpoint, finalized: true })
    }

    pub fn answer<E>(self, checkpoint: Checkpoint) -> (step: RootStep<E>)
        ensures
            step == self.after::<E>(checkpoint),
            step.questions_left() < RootStep::<E>::FinalizedCheckpoint(self).questions_left(),
    {
        RootStep::CheckpointStatus(AskCheckpointStatus { checkpoint, finalized: true })
    }
}

impl AskJustifiedCheckpoint {
    /// The step that follows `checkpoint`.
    pub open spec fn after<E>(self, checkpoint: Checkpoint) -> RootStep<E> {
        RootStep::CheckpointStatus(AskCheckpointStatus { checkpoint, finalized: false })
    }

    pub fn answer<E>(self, checkpoint: Checkpoint) -> (step: RootStep<E>)
        ensures
            step == self.after::<E>(checkpoint),
            step.questions_left() < RootStep::<E>::JustifiedCheckpoint(self).questions_left(),
    {
        RootStep::CheckpointStatus(AskCheckpointStatus { checkpoint, finalized: false })
    }
}

impl AskCheckpointStatus {
    /// The step that follows `reply`: a refusal is passed on as it is.
    pub open spec fn after<E>(
        self,
        reply: Result<(Slot, ExecutionOptimistic), Rejection<E>>,
    ) -> RootStep<E> {
        match reply {
            Ok((_, optimistic)) => RootStep::Done(
                Ok((self.checkpoint.root, optimistic, self.finalized)),
            ),
            Err(rejection) => RootStep::Done(Err(rejection)),
        }
    }

    pub fn answer<E>(self, reply: Result<(Slot, ExecutionOptimistic), Rejection<E>>) -> (step:
        RootStep<E>)
        ensures
            step == self.after(reply),
            step.questions_left() < RootStep::<E>::CheckpointStatus(self).questions_left(),
    {
        match reply {
            Ok((_, optimistic)) => RootStep::Done(
                Ok((self.checkpoint.root, optimistic, self.finalized)),
            ),
            Err(rejection) => RootStep::Done(Err(rejection)),
        }
    }
}

impl AskOptimisticHead {
    /// The step that follows `reply`.
    pub open spec fn after<E>(self, reply: Result<ExecutionOptimistic, E>) -> RootStep<E> {
        match reply {
            Ok(execution_optimistic) => RootStep::RootAtSlot(
                AskRootAtSlot { slot: self.slot, execution_optimistic },
            ),
            Err(e) => RootStep::Done(Err(Rejection::of_chain(e))),
        }
    }

    pub fn answer<E>(self, reply: Result<ExecutionOptimistic, E>) -> (step: RootStep<E>)
        ensures
            step == self.after(reply),
            step.questions_left() < RootStep::<E>::OptimisticHead(self).questions_left(),
    {
        match reply {
            Ok(execution_optimistic) => RootStep::RootAtSlot(
                AskRootAtSlot { slot: self.slot, execution_optimistic },
            ),
            Err(e) => RootStep::Done(
                Err(Rejection::BeaconChainError(BeaconChainError::Chain(e))),
            ),
        }
    }
}

impl AskRootAtSlot {
    /// The step that follows `reply`: without a block at the slot there is no root.
    pub open spec fn after<E>(self, reply: Result<Option<Hash256>, E>) -> RootStep<E> {
        match reply {
            Ok(Some(root)) => RootStep::FinalizedEpoch(
                AskFinalizedEpoch {
                    slot: self.slot,
                    root,
                    execution_optimistic: self.execution_optimistic,
                },
            ),
            Ok(None) => RootStep::Done(Err(Rejection::no_block_at_slot(self.slot))),
            Err(e) => RootStep::Done(Err(Rejection::of_chain(e))),
        }
    }

    pub fn answer<E>(self, reply: Result<Option<Hash256>, E>) -> (step: RootStep<E>)
        ensures
            step == self.after(reply),
            step.questions_left() < RootStep::<E>::RootAtSlot(self).questions_left(),
    {
        match reply {
            Ok(Some(root)) => RootStep::FinalizedEpoch(
                AskFinalizedEpoch {
                    slot: self.slot,
                    root,
                    execution_optimistic: self.execution_optimistic,
                },
            ),
            Ok(None) => RootStep::Done(
                Err(Rejection::CustomNotFound(NotFound::BlockAtSlot(self.slot))),
            ),
            Err(e) => RootStep::Done(
                Err(Rejection::BeaconChainError(BeaconChainError::Chain(e))),
            ),
        }
    }
}

impl AskFinalizedEpoch {
    /// The step that follows: a slot is final up to the first slot of the finalized epoch.
    pub open spec fn after<E>(self, finalized: Checkpoint, slots_per_epoch: u64) -> RootStep<E> {
        RootStep::Done(
            Ok(
                (
                    self.root,
                    self.execution_optimistic,
                    self.slot.0 <= finalized.epoch.first_slot(slots_per_epoch),
                ),
            ),
        )
    }

    pub fn answer<E>(self, finalized: Checkpoint, slots_per_epoch: u64) -> (step: RootStep<E>)
        ensures
            step == self.after::<E>(finalized, slots_per_epoch),
            step.questions_left() < RootStep::<E>::FinalizedEpoch(self).questions_left(),
    {
        let last_final = finalized.epoch.start_slot(slots_per_epoch);
        RootStep::Done(Ok((self.root, self.execution_optimistic, self.slot.0 <= last_final.0)))
    }
}

impl AskBlockExists {
    /// The step that follows `reply`.
    pub open spec fn after<E>(self, reply: Result<bool, E>) -> RootStep<E> {
        match reply {
            Ok(true) => RootStep::OptimisticBlock(AskOptimisticBlock { root: self.root }),
            Ok(false) => RootStep::Done(Err(Rejection::no_block_with_root(self.root))),
            Err(e) => RootStep::Done(
                Err(Rejection::BeaconChainError(BeaconChainError::DBError(e))),
            ),
        }
    }

    pub fn answer<E>(self, reply: Result<bool, E>) -> (step: RootStep<E>)
        ensures
            step == self.after(reply),
            step.questions_left() < RootStep::<E>::BlockExists(self).questions_left(),
    {
        match reply {
            Ok(true) => RootStep::OptimisticBlock(AskOptimisticBlock { root: self.root }),
            Ok(false) => RootStep::Done(
                Err(Rejection::CustomNotFound(NotFound::BlockWithRoot(self.root))),
            ),
            Err(e) => RootStep::Done(
                Err(Rejection::BeaconChainError(BeaconChainError::DBError(e))),
            ),
        }
    }
}

impl AskOptimisticBlock {
    /// The step that follows `reply`.
    pub open spec fn after<E>(self, reply: Result<ExecutionOptimistic, E>) -> RootStep<E> {
        match reply {
            Ok(execution_optimistic) => RootStep::BlockSlot(
                AskBlockSlot { root: self.root, execution_optimistic },
            ),
            Err(e) => RootStep::Done(
                Err(Rejection::BeaconChainError(BeaconChainError::ForkChoiceError(e))),
            ),
        }
    }

    pub fn answer<E>(self, reply: Result<ExecutionOptimistic, E>) -> (step: RootStep<E>)
        ensures
            step == self.after(reply),
            step.questions_left() < RootStep::<E>::OptimisticBlock(self).questions_left(),
    {
        match reply {
            Ok(execution_optimistic) => RootStep::BlockSlot(
                AskBlockSlot { root: self.root, execution_optimistic },
            ),
            Err(e) => RootStep::Done(
                Err(Rejection::BeaconChainError(BeaconChainError::ForkChoiceError(e))),
            ),
        }
    }
}

impl AskBlockSlot {
    /// The step that follows `reply`, the slot of the block where there is one.
    pub open spec fn after<E>(self, reply: Result<Option<Slot>, E>) -> RootStep<E> {
        match reply {
            Ok(Some(slot)) => RootStep::FinalizedBlock(
                AskFinalizedBlock {
                    root: self.root,
                    slot,
                    execution_optimistic: self.execution_optimistic,
                },
            ),
            Ok(None) => RootStep::Done(Err(Rejection::no_block_with_root(self.root))),
            Err(e) => RootStep::Done(Err(Rejection::of_chain(e))),
        }
    }

    pub fn answer<E>(self, reply: Result<Option<Slot>, E>) -> (step: RootStep<E>)
        ensures
            step == self.after(reply),
            step.questions_left() < RootStep::<E>::BlockSlot(self).questions_left(),
    {
        match reply {
            Ok(Some(slot)) => RootStep::FinalizedBlock(
                AskFinalizedBlock {
                    root: self.root,
                    slot,
                    execution_optimistic: self.execution_optimistic,
                },
            ),
            Ok(None) => RootStep::Done(
                Err(Rejection::CustomNotFound(NotFound::BlockWithRoot(self.root))),
            ),
            Err(e) => RootStep::Done(
                Err(Rejection::BeaconChainError(BeaconChainError::Chain(e))),
            ),
        }
    }
}

impl AskFinalizedBlock {
    /// The step that follows `reply`.
    pub open spec fn after<E>(self, reply: Result<Finalized, E>) -> RootStep<E> {
        match reply {
            Ok(finalized) => RootStep::Done(
                Ok((self.root, self.execution_optimistic, finalized)),
            ),
            Err(e) => RootStep::Done(Err(Rejection::of_chain(e))),
        }
    }

    pub fn answer<E>(self, reply: Result<Finalized, E>) -> (step: RootStep<E>)
        ensures
            step == self.after(reply),
            step.questions_left() < RootStep::<E>::FinalizedBlock(self).questions_left(),
    {
        match reply {
            Ok(finalized) => RootStep::Done(
                Ok((self.root, self.execution_optimistic, finalized)),
            ),
            Err(e) => RootStep::Done(
                Err(Rejection::BeaconChainError(BeaconChainError::Chain(e))),
            ),
        }
    }
}

} // verus!
