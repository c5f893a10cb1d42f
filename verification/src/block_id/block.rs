//! Looking up the block that an identifier names, blinded or in full.
use crate::block_id::{BlockId, CoreBlockId, ExecutionOptimistic, Finalized, RootResult};
use crate::hash::Hash256;
use crate::rejection::{BeaconChainError, NotFound, Rejection};
use crate::slot::Slot;
use vstd::prelude::*;

verus! {

/// A block that the chain holds, with the slot it was proposed for.
#[derive(Debug)]
pub struct FoundBlock<B> {
    pub slot: Slot,
    pub block: B,
}

/// The outcome of a block lookup.
pub type BlockResult<B, E> = Result<(B, ExecutionOptimistic, Finalized), Rejection<E>>;

/// Asks for the block of the cached head and whether it is optimistic or invalid.
#[derive(Debug)]
pub struct AskHeadBlock;

/// Asks for the outcome of the root lookup of `id`.
#[derive(Debug)]
pub struct AskBlockRoot {
    pub id: BlockId,
}

/// Asks for the block with root `root`. `slot` is the slot that the identifier names, where it
/// names one.
#[derive(Debug)]
pub struct AskBlock {
    pub slot: Option<Slot>,
    pub root: Hash256,
    pub execution_optimistic: ExecutionOptimistic,
    pub finalized: Finalized,
}

/// A step of a block lookup.
#[derive(Debug)]
pub enum BlockStep<B, E> {
    Done(BlockResult<B, E>),
    Head(AskHeadBlock),
    Root(AskBlockRoot),
    Block(AskBlock),
}

impl<B, E> BlockStep<B, E> {
    /// The largest number of questions that a lookup at this step can still ask.
    pub open spec fn questions_left(self) -> nat {
        match self {
            BlockStep::Done(_) => 0,
            BlockStep::Head(_) => 1,
            BlockStep::Root(_) => 2,
            BlockStep::Block(_) => 1,
        }
    }
}

impl BlockId {
    /// The slot that this identifier names, where it names one.
    pub open spec fn named_slot(self) -> Option<Slot> {
        match self.0 {
            CoreBlockId::Slot(slot) => Some(slot),
            _ => None,
        }
    }

    /// The first step of the block lookup for this identifier: the head has its block at hand, for
    /// any other identifier its root is looked up.
    pub open spec fn first_block_step<B, E>(self) -> BlockStep<B, E> {
        match self.0 {
            CoreBlockId::Head => BlockStep::Head(AskHeadBlock),
            _ => BlockStep::Root(AskBlockRoot { id: self }),
        }
    }

    /// Begins the lookup of the blinded block identified by `self`.
    pub fn blinded_block<B, E>(&self) -> (step: BlockStep<B, E>)
        ensures
            step == self.first_block_step::<B, E>(),
    {
        match self.0 {
            CoreBlockId::Head => BlockStep::Head(AskHeadBlock),
            _ => BlockStep::Root(AskBlockRoot { id: *self }),
        }
    }

    /// Begins the lookup of the full block identified by `self`: the same lookup, answered with
    /// full blocks.
    pub fn full_block<B, E>(&self) -> (step: BlockStep<B, E>)
        ensures
            step == self.first_block_step::<B, E>(),
    {
        self.blinded_block()
    }
}

impl AskHeadBlock {
    /// The step that follows `reply`: the head is never final.
    pub open spec fn after<B, E>(self, reply: Result<(B, ExecutionOptimistic), E>) -> BlockStep<
        B,
        E,
    > {
        match reply {
            Ok((block, optimistic)) => BlockStep::Done(Ok((block, optimistic, false))),
            Err(e) => BlockStep::Done(Err(Rejection::of_chain(e))),
        }
    }

    pub fn answer<B, E>(self, reply: Result<(B, ExecutionOptimistic), E>) -> (step: BlockStep<B, E>)
        ensures
            step == self.after(reply),
            step.questions_left() < BlockStep::<B, E>::Head(self).questions_left(),
    {
        match reply {
            Ok((block, optimistic)) => BlockStep::Done(Ok((block, optimistic, false))),
            Err(e) => BlockStep::Done(
                Err(Rejection::BeaconChainError(BeaconChainError::Chain(e))),
            ),
        }
    }
}

impl AskBlockRoot {
    /// The step that follows `reply`: a refusal is passed on as it is.
    pub open spec fn after<B, E>(self, reply: RootResult<E>) -> BlockStep<B, E> {
        match reply {
            Ok((root, execution_optimistic, finalized)) => BlockStep::Block(
                AskBlock { slot: self.id.named_slot(), root, execution_optimistic, finalized },
            ),
            Err(rejection) => BlockStep::Done(Err(rejection)),
        }
    }

    pub fn answer<B, E>(self, reply: RootResult<E>) -> (step: BlockStep<B, E>)
        ensures
            step == self.after::<B, E>(reply),
            step.questions_left() < BlockStep::<B, E>::Root(self).questions_left(),
    {
        let slot = match self.id.0 {
            CoreBlockId::Slot(slot) => Some(slot),
            _ => None,
        };
        match reply {
            Ok((root, execution_optimistic, finalized)) => BlockStep::Block(
                AskBlock { slot, root, execution_optimistic, finalized },
            ),
            Err(rejection) => BlockStep::Done(Err(rejection)),
        }
    }
}

impl AskBlock {
    /// The step that follows `reply`: where a slot was named, a block of another slot means that
    /// the named one was skipped.
    pub open spec fn after<B, E>(self, reply: Result<Option<FoundBlock<B>>, E>) -> BlockStep<B, E> {
        BlockStep::Done(
            match reply {
                Ok(Some(found)) => match self.slot {
                    Some(slot) if slot != found.slot => Err(
                        Rejection::CustomNotFound(NotFound::SkippedSlot(slot)),
                    ),
                    _ => Ok((found.block, self.execution_optimistic, self.finalized)),
                },
                Ok(None) => Err(Rejection::no_block_with_root(self.root)),
                Err(e) => Err(Rejection::of_chain(e)),
            },
        )
    }

    pub fn answer<B, E>(self, reply: Result<Option<FoundBlock<B>>, E>) -> (step: BlockStep<B, E>)
        ensures
            step == self.after(reply),
            step.questions_left() < BlockStep::<B, E>::Block(self).questions_left(),
    {
        match reply {
            Ok(Some(found)) => {
                if let Some(slot) = self.slot {
                    if found.slot != slot {
                        return BlockStep::Done(
                            Err(Rejection::CustomNotFound(NotFound::SkippedSlot(slot))),
                        );
                    }
                }
                BlockStep::Done(Ok((found.block, self.execution_optimistic, self.finalized)))
            },
            Ok(None) => BlockStep::Done(
                Err(Rejection::CustomNotFound(NotFound::BlockWithRoot(self.root))),
            ),
            Err(e) => BlockStep::Done(
                Err(Rejection::BeaconChainError(BeaconChainError::Chain(e))),
            ),
        }
    }
}

} // verus!
