//! The ways in which an API request about the chain is refused.
use crate::hash::Hash256;
use crate::slot::Slot;
use crate::text::push_decimal;
use vstd::prelude::*;
use vstd::string::StringExecFns;

verus! {

/// A failure inside the beacon chain, by the part of it that failed. `E` is that part's own error.
#[derive(Debug)]
pub enum BeaconChainError<E> {
    /// The chain itself failed.
    Chain(E),
    /// The block store failed.
    DBError(E),
    /// Fork choice failed.
    ForkChoiceError(E),
}

/// What was looked for and not found.
#[derive(Clone, Copy, Debug)]
pub enum NotFound {
    /// No block stands at the slot.
    BlockAtSlot(Slot),
    /// No block has the root.
    BlockWithRoot(Hash256),
    /// The slot holds no block of its own.
    SkippedSlot(Slot),
}

/// Why a request was refused.
#[derive(Debug)]
pub enum Rejection<E> {
    /// The beacon chain failed.
    BeaconChainError(BeaconChainError<E>),
    /// What the request names does not exist.
    CustomNotFound(NotFound),
    /// The server failed, with the text of the failure.
    CustomServerError(String),
}

impl<E> Rejection<E> {
    /// The refusal for a failure of the chain itself.
    pub open spec fn of_chain(e: E) -> Self {
        Rejection::BeaconChainError(BeaconChainError::Chain(e))
    }

    /// The refusal for a root that no block has.
    pub open spec fn no_block_with_root(root: Hash256) -> Self {
        Rejection::CustomNotFound(NotFound::BlockWithRoot(root))
    }

    /// The refusal for a slot at which no block stands.
    pub open spec fn no_block_at_slot(slot: Slot) -> Self {
        Rejection::CustomNotFound(NotFound::BlockAtSlot(slot))
    }
}

impl NotFound {
    /// The text that the requester sees, where `root` is how the block root is shown.
    pub open spec fn text(self, root: Seq<char>) -> Seq<char> {
        match self {
            NotFound::BlockAtSlot(slot) => "beacon block at slot "@ + crate::text::decimal(slot.0 as nat),
            NotFound::BlockWithRoot(_) => "beacon block with root "@ + root,
            NotFound::SkippedSlot(slot) => "slot "@ + crate::text::decimal(slot.0 as nat) + " was skipped"@,
        }
    }

    /// The text that the requester sees. `root` is how the root of `BlockWithRoot` is shown; the
    /// other two do not use it.
    pub fn message(&self, root: &str) -> (message: String)
        ensures
            message@ == self.text(root@),
    {
        match self {
            NotFound::BlockAtSlot(slot) => {
                let mut message = "beacon block at slot ".to_owned();
                push_decimal(&mut message, slot.0);
                message
            },
            NotFound::BlockWithRoot(_) => {
                let mut message = "beacon block with root ".to_owned();
                message.append(root);
                message
            },
            NotFound::SkippedSlot(slot) => {
                let mut message = "slot ".to_owned();
                push_decimal(&mut message, slot.0);
                message.append(" was skipped");
                message
            },
        }
    }
}

/// A message tells what was not found: the slot by its decimal number, and the root as it is shown,
/// whatever that is.
pub proof fn messages_name_what_was_not_found(slot: Slot, root: Hash256, shown: Seq<char>)
    ensures
        NotFound::BlockAtSlot(slot).text(shown) == "beacon block at slot "@ + crate::text::decimal(
            slot.0 as nat,
        ),
        NotFound::BlockWithRoot(root).text(shown) == "beacon block with root "@ + shown,
        NotFound::SkippedSlot(slot).text(shown) == "slot "@ + crate::text::decimal(slot.0 as nat)
            + " was skipped"@,
{
}

/// Messages of one kind tell slots apart, and roots that are shown differently.
pub proof fn messages_tell_their_subjects_apart(
    a: Slot,
    b: Slot,
    root: Hash256,
    shown_a: Seq<char>,
    shown_b: Seq<char>,
)
    ensures
        NotFound::BlockAtSlot(a).text(shown_a) == NotFound::BlockAtSlot(b).text(shown_b) <==> a
            == b,
        NotFound::SkippedSlot(a).text(shown_a) == NotFound::SkippedSlot(b).text(shown_b) <==> a
            == b,
        NotFound::BlockWithRoot(root).text(shown_a) == NotFound::BlockWithRoot(root).text(shown_b)
            <==> shown_a == shown_b,
{
    let na = crate::text::decimal(a.0 as nat);
    let nb = crate::text::decimal(b.0 as nat);
    let at = "beacon block at slot "@;
    let slot = "slot "@;
    let skipped = " was skipped"@;
    let with = "beacon block with root "@;
    if at + na == at + nb {
        assert(na =~= (at + na).skip(at.len() as int));
        assert(nb =~= (at + nb).skip(at.len() as int));
        crate::text::decimal_is_injective(a.0 as nat, b.0 as nat);
    }
    if slot + na + skipped == slot + nb + skipped {
        let text = slot + na + skipped;
        assert(text.len() == slot.len() + na.len() + skipped.len());
        assert((slot + nb + skipped).len() == slot.len() + nb.len() + skipped.len());
        assert(na =~= text.subrange(slot.len() as int, (slot.len() + na.len()) as int));
        assert(nb =~= text.subrange(slot.len() as int, (slot.len() + na.len()) as int));
        crate::text::decimal_is_injective(a.0 as nat, b.0 as nat);
    }
    if with + shown_a == with + shown_b {
        assert(shown_a =~= (with + shown_a).skip(with.len() as int));
        assert(shown_b =~= (with + shown_b).skip(with.len() as int));
    }
}

} // verus!
