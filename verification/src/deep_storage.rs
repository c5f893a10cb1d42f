//! Blocks as they are kept for the long term: a block root and its branch, and from the merge on
//! the execution payload header with the branch that ties it to the block body.
//!
//! The headers of the three forks that have them run through untouched and are type parameters:
//! `M` for Merge, `C` for Capella and `D` for Deneb.
use crate::hash::Hash256;
use crate::rejection::Rejection;
use vstd::prelude::*;

verus! {

/// The forks of the chain.
#[derive(Clone, Copy, Debug, PartialEq, Eq, Structural)]
pub enum ForkName {
    Base,
    Altair,
    Merge,
    Capella,
    Deneb,
}

/// The header of an execution payload, by fork.
#[derive(Debug)]
pub enum ExecutionPayloadHeader<M, C, D> {
    Merge(M),
    Capella(C),
    Deneb(D),
}

/// What is taken from a signed block.
#[derive(Debug)]
pub struct SignedBeaconBlock<M, C, D> {
    /// The fork that the block belongs to, and with it the fork of its body.
    pub fork_name: ForkName,
    pub canonical_root: Hash256,
    /// The header of the execution payload, or the text of the failure where the block has none.
    pub execution_payload: Result<ExecutionPayloadHeader<M, C, D>, String>,
    /// The Merkle branch from the execution payload to the root of the body, where the body has
    /// one.
    pub execution_branch: Option<Vec<Hash256>>,
    /// The text of the failure when the body is asked for as that of another fork.
    pub variant_error: String,
}

impl<M, C, D> SignedBeaconBlock<M, C, D> {
    /// Whether the block can be taken apart as one of `fork`: where it is of that fork and has an
    /// execution payload, the payload is of that fork too and the body proves it.
    pub open spec fn is_whole(self, fork: ForkName) -> bool {
        self.fork_name == fork && self.execution_payload is Ok ==> {
            &&& self.execution_branch is Some
            &&& match self.execution_payload->Ok_0 {
                ExecutionPayloadHeader::Merge(_) => fork == ForkName::Merge,
                ExecutionPayloadHeader::Capella(_) => fork == ForkName::Capella,
                ExecutionPayloadHeader::Deneb(_) => fork == ForkName::Deneb,
            }
        }
    }

    /// Whether the block is as its fork has it: from the merge on it has an execution payload of its
    /// fork, which its body proves, and before that it has none.
    pub open spec fn is_valid(self) -> bool {
        match self.fork_name {
            ForkName::Base | ForkName::Altair => self.execution_payload is Err,
            ForkName::Merge => {
                &&& self.execution_payload matches Ok(ExecutionPayloadHeader::Merge(_))
                &&& self.execution_branch is Some
            },
            ForkName::Capella => {
                &&& self.execution_payload matches Ok(ExecutionPayloadHeader::Capella(_))
                &&& self.execution_branch is Some
            },
            ForkName::Deneb => {
                &&& self.execution_payload matches Ok(ExecutionPayloadHeader::Deneb(_))
                &&& self.execution_branch is Some
            },
        }
    }

    /// The failure to take the block apart as one of `fork`, where there is one: the wrong fork
    /// comes before the missing payload.
    pub open spec fn failure(self, fork: ForkName) -> Option<String> {
        if self.fork_name != fork {
            Some(self.variant_error)
        } else {
            match self.execution_payload {
                Err(text) => Some(text),
                Ok(_) => None,
            }
        }
    }
}

/// A block from before the merge.
#[derive(Debug)]
pub struct DeepStorageBlockBase {
    pub block_root: Hash256,
    pub block_root_branch: Vec<Hash256>,
}

/// A block from before the merge.
#[derive(Debug)]
pub struct DeepStorageBlockAltair {
    pub block_root: Hash256,
    pub block_root_branch: Vec<Hash256>,
}

/// A block of the Merge fork.
#[derive(Debug)]
pub struct DeepStorageBlockMerge<M> {
    pub block_root: Hash256,
    pub block_root_branch: Vec<Hash256>,
    pub execution: M,
    pub execution_branch: Vec<Hash256>,
}

/// A block of the Capella fork.
#[derive(Debug)]
pub struct DeepStorageBlockCapella<C> {
    pub block_root: Hash256,
    pub block_root_branch: Vec<Hash256>,
    pub execution: C,
    pub execution_branch: Vec<Hash256>,
}

/// A block of the Deneb fork.
#[derive(Debug)]
pub struct DeepStorageBlockDeneb<D> {
    pub block_root: Hash256,
    pub block_root_branch: Vec<Hash256>,
    pub execution: D,
    pub execution_branch: Vec<Hash256>,
}

/// A block of any fork.
#[derive(Debug)]
pub enum DeepStorageBlock<M, C, D> {
    Base(DeepStorageBlockBase),
    Altair(DeepStorageBlockAltair),
    Merge(DeepStorageBlockMerge<M>),
    Capella(DeepStorageBlockCapella<C>),
    Deneb(DeepStorageBlockDeneb<D>),
}

impl<M> DeepStorageBlockMerge<M> {
    /// Takes a block of the Merge fork apart.
    pub fn new<C, D, E>(
        block: SignedBeaconBlock<M, C, D>,
        block_root_branch: Vec<Hash256>,
    ) -> (stored: Result<Self, Rejection<E>>)
        requires
            block.is_whole(ForkName::Merge),
        ensures
            match block.failure(ForkName::Merge) {
                Some(text) => stored == Err::<Self, _>(Rejection::<E>::CustomServerError(text)),
                None => stored == Ok::<_, Rejection<E>>(
                    DeepStorageBlockMerge {
                        block_root: block.canonical_root,
                        block_root_branch,
                        execution: block.execution_payload->Ok_0->Merge_0,
                        execution_branch: block.execution_branch->0,
                    },
                ),
            },
    {
        if block.fork_name != ForkName::Merge {
            return Err(Rejection::CustomServerError(block.variant_error));
        }
        let header = match block.execution_payload {
            Ok(header) => header,
            Err(text) => return Err(Rejection::CustomServerError(text)),
        };
        let execution_branch = block.execution_branch.unwrap();
        match header {
            ExecutionPayloadHeader::Merge(execution) => Ok(
                DeepStorageBlockMerge {
                    block_root: block.canonical_root,
                    block_root_branch,
                    execution,
                    execution_branch,
                },
            ),
            // A whole block of this fork has no other header.
            _ => Err(Rejection::CustomServerError(block.variant_error)),
        }
    }
}

impl<C> DeepStorageBlockCapella<C> {
    /// Takes a block of the Capella fork apart.
    pub fn new<M, D, E>(
        block: SignedBeaconBlock<M, C, D>,
        block_root_branch: Vec<Hash256>,
    ) -> (stored: Result<Self, Rejection<E>>)
        requires
            block.is_whole(ForkName::Capella),
        ensures
            match block.failure(ForkName::Capella) {
                Some(text) => stored == Err::<Self, _>(Rejection::<E>::CustomServerError(text)),
                None => stored == Ok::<_, Rejection<E>>(
                    DeepStorageBlockCapella {
                        block_root: block.canonical_root,
                        block_root_branch,
                        execution: block.execution_payload->Ok_0->Capella_0,
                        execution_branch: block.execution_branch->0,
                    },
                ),
            },
    {
        if block.fork_name != ForkName::Capella {
            return Err(Rejection::CustomServerError(block.variant_error));
        }
        let header = match block.execution_payload {
            Ok(header) => header,
            Err(text) => return Err(Rejection::CustomServerError(text)),
        };
        let execution_branch = block.execution_branch.unwrap();
        match header {
            ExecutionPayloadHeader::Capella(execution) => Ok(
                DeepStorageBlockCapella {
                    block_root: block.canonical_root,
                    block_root_branch,
                    execution,
                    execution_branch,
                },
            ),
            // A whole block of this fork has no other header.
            _ => Err(Rejection::CustomServerError(block.variant_error)),
        }
    }
}

impl<D> DeepStorageBlockDeneb<D> {
    /// Takes a block of the Deneb fork apart.
    pub fn new<M, C, E>(
        block: SignedBeaconBlock<M, C, D>,
        block_root_branch: Vec<Hash256>,
    ) -> (stored: Result<Self, Rejection<E>>)
        requires
            block.is_whole(ForkName::Deneb),
        ensures
            match block.failure(ForkName::Deneb) {
                Some(text) => stored == Err::<Self, _>(Rejection::<E>::CustomServerError(text)),
                None => stored == Ok::<_, Rejection<E>>(
                    DeepStorageBlockDeneb {
                        block_root: block.canonical_root,
                        block_root_branch,
                        execution: block.execution_payload->Ok_0->Deneb_0,
                        execution_branch: block.execution_branch->0,
                    },
                ),
            },
    {
        if block.fork_name != ForkName::Deneb {
            return Err(Rejection::CustomServerError(block.variant_error));
        }
        let header = match block.execution_payload {
            Ok(header) => header,
            Err(text) => return Err(Rejection::CustomServerError(text)),
        };
        let execution_branch = block.execution_branch.unwrap();
        match header {
            ExecutionPayloadHeader::Deneb(execution) => Ok(
                DeepStorageBlockDeneb {
                    block_root: block.canonical_root,
                    block_root_branch,
                    execution,
                    execution_branch,
                },
            ),
            // A whole block of this fork has no other header.
            _ => Err(Rejection::CustomServerError(block.variant_error)),
        }
    }
}

impl<M, C, D> DeepStorageBlock<M, C, D> {
    /// The root of the block.
    pub fn block_root(&self) -> (root: Hash256)
        ensures
            root == (match *self {
                DeepStorageBlock::Base(b) => b.block_root,
                DeepStorageBlock::Altair(b) => b.block_root,
                DeepStorageBlock::Merge(b) => b.block_root,
                DeepStorageBlock::Capella(b) => b.block_root,
                DeepStorageBlock::Deneb(b) => b.block_root,
            }),
    {
        match self {
            DeepStorageBlock::Base(b) => b.block_root,
            DeepStorageBlock::Altair(b) => b.block_root,
            DeepStorageBlock::Merge(b) => b.block_root,
            DeepStorageBlock::Capella(b) => b.block_root,
            DeepStorageBlock::Deneb(b) => b.block_root,
        }
    }

    /// The branch of the root of the block.
    pub fn block_root_branch(&self) -> (branch: &Vec<Hash256>)
        ensures
            *branch == (match *self {
                DeepStorageBlock::Base(b) => b.block_root_branch,
                DeepStorageBlock::Altair(b) => b.block_root_branch,
                DeepStorageBlock::Merge(b) => b.block_root_branch,
                DeepStorageBlock::Capella(b) => b.block_root_branch,
                DeepStorageBlock::Deneb(b) => b.block_root_branch,
            }),
    {
        match self {
            DeepStorageBlock::Base(b) => &b.block_root_branch,
            DeepStorageBlock::Altair(b) => &b.block_root_branch,
            DeepStorageBlock::Merge(b) => &b.block_root_branch,
            DeepStorageBlock::Capella(b) => &b.block_root_branch,
            DeepStorageBlock::Deneb(b) => &b.block_root_branch,
        }
    }

    /// The branch of the execution payload, which blocks from before the merge do not have.
    pub fn execution_branch(&self) -> (branch: Result<&Vec<Hash256>, ()>)
        ensures
            branch is Err <==> *self is Base || *self is Altair,
            branch matches Ok(b) ==> *b == (match *self {
                DeepStorageBlock::Merge(m) => m.execution_branch,
                DeepStorageBlock::Capella(c) => c.execution_branch,
                _ => self->Deneb_0.execution_branch,
            }),
    {
        match self {
            DeepStorageBlock::Base(_) => Err(()),
            DeepStorageBlock::Altair(_) => Err(()),
            DeepStorageBlock::Merge(b) => Ok(&b.execution_branch),
            DeepStorageBlock::Capella(b) => Ok(&b.execution_branch),
            DeepStorageBlock::Deneb(b) => Ok(&b.execution_branch),
        }
    }

    /// The execution payload header of a block of the Merge fork.
    pub fn execution_payload_header_merge(&self) -> (header: Result<&M, ()>)
        ensures
            header is Ok <==> *self is Merge,
            header matches Ok(h) ==> *h == self->Merge_0.execution,
    {
        match self {
            DeepStorageBlock::Merge(b) => Ok(&b.execution),
            _ => Err(()),
        }
    }

    /// The execution payload header of a block of the Capella fork.
    pub fn execution_payload_header_capella(&self) -> (header: Result<&C, ()>)
        ensures
            header is Ok <==> *self is Capella,
            header matches Ok(h) ==> *h == self->Capella_0.execution,
    {
        match self {
            DeepStorageBlock::Capella(b) => Ok(&b.execution),
            _ => Err(()),
        }
    }

    /// The execution payload header of a block of the Deneb fork.
    pub fn execution_payload_header_deneb(&self) -> (header: Result<&D, ()>)
        ensures
            header is Ok <==> *self is Deneb,
            header matches Ok(h) ==> *h == self->Deneb_0.execution,
    {
        match self {
            DeepStorageBlock::Deneb(b) => Ok(&b.execution),
            _ => Err(()),
        }
    }
}

/// A valid block can be handed to each of the three constructors. Exactly one of them succeeds, that
/// of the block's own fork, where the block is from the merge on, and none where it is from before.
pub proof fn valid_blocks_succeed_as_their_own_fork<M, C, D>(block: SignedBeaconBlock<M, C, D>)
    requires
        block.is_valid(),
    ensures
        forall|fork: ForkName| #[trigger]
            block.is_whole(fork) && (block.failure(fork) is None <==> {
                &&& fork == block.fork_name
                &&& fork == ForkName::Merge || fork == ForkName::Capella || fork == ForkName::Deneb
            }),
{
}

/// A block can be taken apart as one of at most one fork.
pub proof fn blocks_belong_to_one_fork<M, C, D>(
    block: SignedBeaconBlock<M, C, D>,
    a: ForkName,
    b: ForkName,
)
    requires
        block.failure(a) is None,
        block.failure(b) is None,
    ensures
        a == b,
        a == block.fork_name,
{
}

/// A block can be taken apart as one of a fork if and only if it is of that fork and has an execution
/// payload. Of another fork it fails with the text about its variant, and without a payload with
/// the text about its payload.
pub proof fn taking_apart_fails_for_the_fork_then_for_the_payload<M, C, D>(
    block: SignedBeaconBlock<M, C, D>,
    fork: ForkName,
)
    ensures
        block.failure(fork) is None <==> block.fork_name == fork && block.execution_payload is Ok,
        block.fork_name != fork ==> block.failure(fork) == Some(block.variant_error),
        block.fork_name == fork && block.execution_payload is Err ==> block.failure(fork) == Some(
            block.execution_payload->Err_0,
        ),
{
}

/// The demand on a block that it is whole bears only on blocks of the fork that have a payload, and
/// asks of those that the payload is of the fork and that the body proves it.
pub proof fn only_broken_blocks_are_left_out<M, C, D>(
    block: SignedBeaconBlock<M, C, D>,
    fork: ForkName,
)
    ensures
        block.fork_name != fork ==> block.is_whole(fork),
        block.execution_payload is Err ==> block.is_whole(fork),
        block.execution_branch is Some && fork == ForkName::Merge
            && (block.execution_payload matches Ok(ExecutionPayloadHeader::Merge(_)))
            ==> block.is_whole(fork),
        block.execution_branch is Some && fork == ForkName::Capella
            && (block.execution_payload matches Ok(ExecutionPayloadHeader::Capella(_)))
            ==> block.is_whole(fork),
        block.execution_branch is Some && fork == ForkName::Deneb
            && (block.execution_payload matches Ok(ExecutionPayloadHeader::Deneb(_)))
            ==> block.is_whole(fork),
{
}

} // verus!
