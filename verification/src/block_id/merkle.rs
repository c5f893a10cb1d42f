//! The Merkle branch that ties the block root of a slot to the block roots of its epoch.
use crate::block_id::{BlockId, CoreBlockId};
use crate::hash::Hash256;
use crate::rejection::Rejection;
use crate::slot::{floor_log2, Epoch, Slot};
use vstd::arithmetic::power2::pow2;
use vstd::prelude::*;

verus! {

/// Asks for the block roots of the slots from `first_slot` to `last_slot`. They become the leaves of
/// a tree of depth `depth`, in which the leaf at `index` is to be proved.
#[derive(Clone, Copy, Debug)]
pub struct AskBlockRoots {
    pub first_slot: Slot,
    pub last_slot: Slot,
    pub index: u64,
    pub depth: usize,
}

/// Asks for a Merkle proof: for the leaf at `index`, in the tree of depth `depth` over `leaves`.
#[derive(Debug)]
pub struct AskMerkleProof {
    pub leaves: Vec<Hash256>,
    pub index: u64,
    pub depth: usize,
}

impl AskBlockRoots {
    /// Whether this asks for the branch of `slot`: over its whole epoch, at its place there, in a
    /// tree whose depth is the logarithm of the number of slots per epoch.
    pub open spec fn is_for(self, slot: Slot, slots_per_epoch: u64) -> bool {
        let epoch = Epoch(slot.0 / slots_per_epoch);
        &&& self.first_slot.0 == epoch.first_slot(slots_per_epoch)
        &&& self.last_slot.0 == epoch.last_slot(slots_per_epoch)
        &&& self.index == slot.0 % slots_per_epoch
        &&& crate::slot::is_floor_log2(slots_per_epoch as nat, self.depth as nat)
    }

    /// The block roots become the leaves, in their order.
    pub fn answer(self, block_roots: Vec<Hash256>) -> (ask: AskMerkleProof)
        ensures
            ask == (AskMerkleProof { leaves: block_roots, index: self.index, depth: self.depth }),
    {
        AskMerkleProof { leaves: block_roots, index: self.index, depth: self.depth }
    }
}

impl AskMerkleProof {
    /// Whether `leaf` and `branch` are what is asked for, in a tree whose nodes are hashed by `hash`:
    /// the leaf at the index, and its siblings on the way up.
    pub open spec fn is_proved_by(
        self,
        hash: NodeHash,
        leaf: Hash256,
        branch: Seq<Hash256>,
    ) -> bool {
        &&& leaf == self.leaves@[self.index as int]
        &&& branch == siblings(hash, self.leaves@, 0, self.index as int, self.depth as nat)
    }

    /// The leaf and its branch, or the refusal that carries the text of the tree's failure. The
    /// tree's answer is handed on as it is: the hash of its nodes is the tree's own.
    pub fn answer<E>(self, reply: Result<(Hash256, Vec<Hash256>), String>) -> (result: Result<
        (Hash256, Vec<Hash256>),
        Rejection<E>,
    >)
        ensures
            result == (match reply {
                Ok(proved) => Ok(proved),
                Err(text) => Err(Rejection::<E>::CustomServerError(text)),
            }),
    {
        match reply {
            Ok(proved) => Ok(proved),
            Err(text) => Err(Rejection::CustomServerError(text)),
        }
    }
}

impl BlockId {
    /// Begins the proof of the block root of the slot that `self` names. Other identifiers have
    /// no such proof.
    pub fn merkle_brunch_root(&self, slots_per_epoch: u64) -> (ask: AskBlockRoots)
        requires
            self.0 is Slot,
            slots_per_epoch > 0,
        ensures
            ask.is_for(self.0->Slot_0, slots_per_epoch),
    {
        let slot = match self.0 {
            CoreBlockId::Slot(slot) => slot,
            _ => Slot(0),
        };
        let epoch = slot.epoch(slots_per_epoch);
        proof {
            crate::slot::slot_lies_in_its_epoch(slot, epoch, slots_per_epoch);
        }
        let index: u64 = epoch.position(slot, slots_per_epoch).unwrap();
        AskBlockRoots {
            first_slot: epoch.start_slot(slots_per_epoch),
            last_slot: epoch.end_slot(slots_per_epoch),
            index,
            depth: floor_log2(slots_per_epoch),
        }
    }
}

/// The slot whose root is proved lies among the leaves, at the index that the proof is for.
pub proof fn proved_slot_is_the_indexed_leaf(
    ask: AskBlockRoots,
    slot: Slot,
    slots_per_epoch: u64,
)
    requires
        slots_per_epoch > 0,
        ask.is_for(slot, slots_per_epoch),
    ensures
        ask.first_slot.0 <= slot.0 <= ask.last_slot.0,
        ask.first_slot.0 + ask.index == slot.0,
{
    crate::slot::slot_lies_in_its_epoch(slot, Epoch(slot.0 / slots_per_epoch), slots_per_epoch);
}

/// Where the number of slots per epoch is a power of two, the tree has exactly one leaf per slot
/// of the epoch, and the index lies in it.
pub proof fn tree_holds_one_leaf_per_slot(
    ask: AskBlockRoots,
    slot: Slot,
    slots_per_epoch: u64,
    log: nat,
)
    requires
        slots_per_epoch == pow2(log),
        ask.is_for(slot, slots_per_epoch),
    ensures
        pow2(ask.depth as nat) == slots_per_epoch,
        ask.index < pow2(ask.depth as nat),
        ask.last_slot.0 - ask.first_slot.0 + 1 == slots_per_epoch,
{
    vstd::arithmetic::power2::lemma_pow2_pos(log);
    vstd::arithmetic::power2::lemma_pow2_strictly_increases(log, log + 1);
    crate::slot::floor_log2_is_unique(slots_per_epoch as nat, ask.depth as nat, log);
    // The epoch ends at or before the largest slot number, because the number of slots per epoch
    // divides the number of slots there are.
    vstd::arithmetic::power2::lemma2_to64();
    vstd::arithmetic::power2::lemma2_to64_rest();
    if log >= 64 {
        if log > 64 {
            vstd::arithmetic::power2::lemma_pow2_strictly_increases(64, log);
        }
    }
    let epochs: nat = pow2((64 - log) as nat);
    vstd::arithmetic::power2::lemma_pow2_adds(log, (64 - log) as nat);
    let n: int = slots_per_epoch as int;
    let q: int = (slot.0 / slots_per_epoch) as int;
    vstd::arithmetic::div_mod::lemma_fundamental_div_mod(slot.0 as int, n);
    assert(q + 1 <= epochs) by (nonlinear_arith)
        requires
            n * q <= slot.0,
            slot.0 < n * epochs,
            n > 0,
    ;
    assert((q + 1) * n <= epochs * n) by (nonlinear_arith)
        requires
            q + 1 <= epochs,
            n > 0,
    ;
    assert((q + 1) * n == q * n + n) by (nonlinear_arith);
    assert(epochs * n == n * epochs) by (nonlinear_arith);
}

/// Two slots of one epoch are proved against the same tree, at different leaves unless they are
/// the same slot.
pub proof fn slots_of_one_epoch_share_the_tree(
    a: AskBlockRoots,
    b: AskBlockRoots,
    slot_a: Slot,
    slot_b: Slot,
    slots_per_epoch: u64,
)
    requires
        slots_per_epoch > 0,
        slot_a.0 / slots_per_epoch == slot_b.0 / slots_per_epoch,
        a.is_for(slot_a, slots_per_epoch),
        b.is_for(slot_b, slots_per_epoch),
    ensures
        a.first_slot == b.first_slot,
        a.last_slot == b.last_slot,
        a.depth == b.depth,
        a.index == b.index <==> slot_a == slot_b,
{
    proved_slot_is_the_indexed_leaf(a, slot_a, slots_per_epoch);
    proved_slot_is_the_indexed_leaf(b, slot_b, slots_per_epoch);
    crate::slot::floor_log2_is_unique(slots_per_epoch as nat, a.depth as nat, b.depth as nat);
}

/// How two nodes of a tree are hashed into their parent.
pub type NodeHash = spec_fn(Hash256, Hash256) -> Hash256;

/// The node at position `i` of `level`, counted from the leaves up, of the tree over `leaves`.
pub open spec fn node(hash: NodeHash, leaves: Seq<Hash256>, level: nat, i: int) -> Hash256
    decreases level,
{
    if level == 0 {
        leaves[i]
    } else {
        hash(
            node(hash, leaves, (level - 1) as nat, 2 * i),
            node(hash, leaves, (level - 1) as nat, 2 * i + 1),
        )
    }
}

/// The root of the tree of depth `depth` over `leaves`.
pub open spec fn tree_root(hash: NodeHash, leaves: Seq<Hash256>, depth: nat) -> Hash256 {
    node(hash, leaves, depth, 0)
}

/// The siblings on the way up from the node at position `i` of `level` to the root.
pub open spec fn siblings(
    hash: NodeHash,
    leaves: Seq<Hash256>,
    level: nat,
    i: int,
    depth: nat,
) -> Seq<Hash256>
    decreases depth - level,
{
    if level >= depth {
        Seq::empty()
    } else {
        let sibling = if i % 2 == 0 {
            i + 1
        } else {
            i - 1
        };
        seq![node(hash, leaves, level, sibling)] + siblings(hash, leaves, level + 1, i / 2, depth)
    }
}

/// The root that a node at position `i` folds to with the siblings in `branch`, bottom-up.
pub open spec fn fold(hash: NodeHash, start: Hash256, branch: Seq<Hash256>, i: int) -> Hash256
    decreases branch.len(),
{
    if branch.len() == 0 {
        start
    } else {
        let parent = if i % 2 == 0 {
            hash(start, branch[0])
        } else {
            hash(branch[0], start)
        };
        fold(hash, parent, branch.drop_first(), i / 2)
    }
}

/// A node folds with its siblings to the root of its tree, and it has one sibling per level.
pub proof fn siblings_fold_to_the_root(
    hash: NodeHash,
    leaves: Seq<Hash256>,
    level: nat,
    i: int,
    depth: nat,
)
    requires
        level <= depth,
        0 <= i < pow2((depth - level) as nat),
    ensures
        siblings(hash, leaves, level, i, depth).len() == depth - level,
        fold(
            hash,
            node(hash, leaves, level, i),
            siblings(hash, leaves, level, i, depth),
            i,
        ) == tree_root(hash, leaves, depth),
    decreases depth - level,
{
    if level == depth {
        vstd::arithmetic::power2::lemma2_to64();
    } else {
        vstd::arithmetic::power2::lemma_pow2_unfold((depth - level) as nat);
        siblings_fold_to_the_root(hash, leaves, level + 1, i / 2, depth);
        let branch = siblings(hash, leaves, level, i, depth);
        assert(branch.drop_first() =~= siblings(hash, leaves, level + 1, i / 2, depth));
        if i % 2 == 0 {
            assert(2 * (i / 2) == i);
        } else {
            assert(2 * (i / 2) + 1 == i);
        }
    }
}

/// Where the number of slots per epoch is a power of two, a proof of a slot's leaf among the block
/// roots of its epoch gives the block root of that slot and one node per level of the tree, and
/// folds, at the slot's place in the epoch, to the root of the tree over those block roots.
pub proof fn proof_folds_to_the_root_of_the_epoch(
    hash: NodeHash,
    roots: AskBlockRoots,
    ask: AskMerkleProof,
    slot: Slot,
    slots_per_epoch: u64,
    log: nat,
    leaf: Hash256,
    branch: Seq<Hash256>,
)
    requires
        slots_per_epoch == pow2(log),
        roots.is_for(slot, slots_per_epoch),
        ask.leaves@.len() == slots_per_epoch,
        ask.index == roots.index,
        ask.depth == roots.depth,
        ask.is_proved_by(hash, leaf, branch),
    ensures
        ({
            let at = (slot.0 % slots_per_epoch) as int;
            &&& leaf == ask.leaves@[at]
            &&& branch.len() == log
            &&& fold(hash, leaf, branch, at) == tree_root(hash, ask.leaves@, log)
        }),
{
    tree_holds_one_leaf_per_slot(roots, slot, slots_per_epoch, log);
    vstd::arithmetic::power2::lemma_pow2_strictly_increases(log, log + 1);
    crate::slot::floor_log2_is_unique(slots_per_epoch as nat, roots.depth as nat, log);
    siblings_fold_to_the_root(hash, ask.leaves@, 0, ask.index as int, ask.depth as nat);
}

/// Where the number of slots per epoch is a power of two, the proofs of any two slots of one epoch
/// over the same block roots fold to the same root.
pub proof fn proofs_of_one_epoch_fold_to_one_root(
    hash: NodeHash,
    roots: (AskBlockRoots, AskBlockRoots),
    asks: (AskMerkleProof, AskMerkleProof),
    slots: (Slot, Slot),
    slots_per_epoch: u64,
    log: nat,
    leaves: (Hash256, Hash256),
    branches: (Seq<Hash256>, Seq<Hash256>),
)
    requires
        slots_per_epoch == pow2(log),
        slots.0.0 / slots_per_epoch == slots.1.0 / slots_per_epoch,
        roots.0.is_for(slots.0, slots_per_epoch),
        roots.1.is_for(slots.1, slots_per_epoch),
        asks.0.leaves@.len() == slots_per_epoch,
        asks.0.leaves@ == asks.1.leaves@,
        asks.0.index == roots.0.index && asks.0.depth == roots.0.depth,
        asks.1.index == roots.1.index && asks.1.depth == roots.1.depth,
        asks.0.is_proved_by(hash, leaves.0, branches.0),
        asks.1.is_proved_by(hash, leaves.1, branches.1),
    ensures
        fold(hash, leaves.0, branches.0, asks.0.index as int) == fold(
            hash,
            leaves.1,
            branches.1,
            asks.1.index as int,
        ),
{
    proof_folds_to_the_root_of_the_epoch(
        hash,
        roots.0,
        asks.0,
        slots.0,
        slots_per_epoch,
        log,
        leaves.0,
        branches.0,
    );
    proof_folds_to_the_root_of_the_epoch(
        hash,
        roots.1,
        asks.1,
        slots.1,
        slots_per_epoch,
        log,
        leaves.1,
        branches.1,
    );
}

/// The block roots that are asked for are those of exactly the slots of the slot's own epoch, the leaf
/// that is proved is that of the slot, and the depth is such that a tree of it has no more leaves
/// than there are slots in an epoch, and one of the next depth has more.
pub proof fn block_roots_of_the_whole_epoch_are_asked_for(
    ask: AskBlockRoots,
    slot: Slot,
    other: Slot,
    slots_per_epoch: u64,
)
    requires
        slots_per_epoch > 0,
        ask.is_for(slot, slots_per_epoch),
    ensures
        ask.first_slot.0 <= other.0 <= ask.last_slot.0 <==> other.0 / slots_per_epoch == slot.0
            / slots_per_epoch,
        ask.index == slot.0 - ask.first_slot.0,
        ask.index == slot.0 % slots_per_epoch,
        pow2(ask.depth as nat) <= slots_per_epoch < pow2(ask.depth as nat + 1),
{
    let epoch = Epoch(slot.0 / slots_per_epoch);
    proved_slot_is_the_indexed_leaf(ask, slot, slots_per_epoch);
    assert(epoch.0 * slots_per_epoch <= slot.0) by {
        vstd::arithmetic::div_mod::lemma_fundamental_div_mod(
            slot.0 as int,
            slots_per_epoch as int,
        );
        assert(slots_per_epoch * (slot.0 / slots_per_epoch) == (slot.0 / slots_per_epoch)
            * slots_per_epoch) by (nonlinear_arith);
    }
    crate::slot::epoch_holds_exactly_its_slots(epoch, other, slots_per_epoch);
}

} // verus!
