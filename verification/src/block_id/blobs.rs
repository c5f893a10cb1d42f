//! The blob sidecars of a block.
use crate::block_id::{BlockId, RootResult};
use crate::hash::Hash256;
use crate::rejection::{BeaconChainError, Rejection};
use vstd::prelude::*;

verus! {

/// A blob sidecar, with its index in its block.
#[derive(Debug)]
pub struct BlobSidecar<B> {
    pub index: u64,
    pub sidecar: B,
}

/// A list was given more items than it may hold.
#[derive(Clone, Copy, Debug, PartialEq, Eq, Structural)]
pub struct OutOfBounds {
    /// How many items were given.
    pub i: usize,
    /// How many items the list may hold.
    pub len: usize,
}

/// A list of blob sidecars that never holds more than a fixed number of them.
#[derive(Debug)]
pub struct BlobSidecarList<B> {
    items: Vec<BlobSidecar<B>>,
    max_len: usize,
}

impl<B> View for BlobSidecarList<B> {
    type V = Seq<BlobSidecar<B>>;

    closed spec fn view(&self) -> Seq<BlobSidecar<B>> {
        self.items@
    }
}

impl<B> BlobSidecarList<B> {
    /// How many sidecars the list may hold.
    pub closed spec fn capacity(self) -> usize {
        self.max_len
    }

    #[verifier::type_invariant]
    spec fn within_capacity(self) -> bool {
        self.items@.len() <= self.max_len
    }

    /// A list of `items` that may hold `max_len` of them.
    pub fn new(items: Vec<BlobSidecar<B>>, max_len: usize) -> (list: Result<Self, OutOfBounds>)
        ensures
            list is Ok <==> items@.len() <= max_len,
            list matches Ok(l) ==> l@ == items@ && l.capacity() == max_len,
            list matches Err(e) ==> e.i == items@.len() && e.len == max_len,
    {
        if items.len() <= max_len {
            Ok(BlobSidecarList { items, max_len })
        } else {
            Err(OutOfBounds { i: items.len(), len: max_len })
        }
    }

    /// The number of sidecars in the list.
    pub fn len(&self) -> (n: usize)
        ensures
            n == self@.len(),
            n <= self.capacity(),
    {
        proof {
            use_type_invariant(self);
        }
        self.items.len()
    }

    /// The sidecar at position `i`.
    pub fn get(&self, i: usize) -> (sidecar: Option<&BlobSidecar<B>>)
        ensures
            sidecar is Some <==> i < self@.len(),
            sidecar matches Some(s) ==> *s == self@[i as int],
    {
        if i < self.items.len() {
            Some(&self.items[i])
        } else {
            None
        }
    }

    /// The sidecars of the list whose index stands in `indices`, in their order.
    pub open spec fn selected(self, indices: Seq<u64>) -> Seq<BlobSidecar<B>> {
        self@.filter(|s: BlobSidecar<B>| indices.contains(s.index))
    }

    /// Keeps the sidecars whose index stands in `indices`. What is kept fits, since nothing is
    /// added.
    fn select(self, indices: &Vec<u64>) -> (list: Self)
        ensures
            list@ == self.selected(indices@),
            list.capacity() == self.capacity(),
    {
        proof {
            use_type_invariant(&self);
        }
        let ghost all = self.items@;
        let ghost wanted = |s: BlobSidecar<B>| indices@.contains(s.index);
        let max_len = self.max_len;
        let mut kept: Vec<BlobSidecar<B>> = Vec::new();
        proof {
            reveal(Seq::filter);
        }
        for s in it: self.items
            invariant
                it.seq() == all,
                kept@ == all.take(it.index() as int).filter(wanted),
                kept@.len() <= it.index(),
                wanted == (|s: BlobSidecar<B>| indices@.contains(s.index)),
        {
            proof {
                crate::seqs::filter_one_more(all, it.index() as int, wanted);
            }
            if contains_index(indices, s.index) {
                kept.push(s);
            }
        }
        assert(all.take(all.len() as int) =~= all);
        BlobSidecarList { items: kept, max_len }
    }
}

/// Whether `indices` holds `index`.
fn contains_index(indices: &Vec<u64>, index: u64) -> (b: bool)
    ensures
        b == indices@.contains(index),
{
    for i in 0..indices.len()
        invariant
            forall|j: int| 0 <= j < i ==> indices@[j] != index,
    {
        if indices[i] == index {
            return true;
        }
    }
    false
}

/// The outcome of a lookup of blob sidecars.
pub type BlobResult<B, E> = Result<BlobSidecarList<B>, Rejection<E>>;

/// Asks for the outcome of the root lookup of `id`.
#[derive(Debug)]
pub struct AskBlobRoot {
    pub id: BlockId,
}

/// Asks for the blob sidecars of the block with root `root`.
#[derive(Debug)]
pub struct AskBlobs {
    pub root: Hash256,
}

/// A step of a lookup of blob sidecars.
#[derive(Debug)]
pub enum BlobStep<B, E> {
    Done(BlobResult<B, E>),
    Root(AskBlobRoot),
    Blobs(AskBlobs),
}

/// Asks for the outcome of the lookup of all blob sidecars of `id`, of which those whose index
/// stands in `indices` are wanted, or all of them where `indices` is `None`.
#[derive(Debug)]
pub struct AskBlobList {
    pub id: BlockId,
    pub indices: Option<Vec<u64>>,
}

impl BlockId {
    /// Begins the lookup of the blob sidecars of the block identified by `self`: the root of that
    /// block is asked for first.
    pub fn blob_sidecar_list<B, E>(&self) -> (step: BlobStep<B, E>)
        ensures
            step == BlobStep::<B, E>::Root(AskBlobRoot { id: *self }),
    {
        BlobStep::Root(AskBlobRoot { id: *self })
    }

    /// Begins the lookup of those blob sidecars of the block identified by `self` whose index
    /// stands in `indices`, or of all of them where `indices` is `None`.
    pub fn blob_sidecar_list_filtered(&self, indices: Option<Vec<u64>>) -> (ask: AskBlobList)
        ensures
            ask == (AskBlobList { id: *self, indices }),
    {
        AskBlobList { id: *self, indices }
    }
}

impl AskBlobRoot {
    /// The step that follows `reply`: a refusal is passed on as it is.
    pub open spec fn after<B, E>(self, reply: RootResult<E>) -> BlobStep<B, E> {
        match reply {
            Ok((root, _, _)) => BlobStep::Blobs(AskBlobs { root }),
            Err(rejection) => BlobStep::Done(Err(rejection)),
        }
    }

    /// A refusal is passed on as it is; otherwise the sidecars of the root that was found are
    /// asked for.
    pub fn answer<B, E>(self, reply: RootResult<E>) -> (step: BlobStep<B, E>)
        ensures
            step == self.after::<B, E>(reply),
    {
        match reply {
            Ok((root, _, _)) => BlobStep::Blobs(AskBlobs { root }),
            Err(rejection) => BlobStep::Done(Err(rejection)),
        }
    }
}

impl AskBlobs {
    /// The outcome of the lookup after `reply`.
    pub open spec fn after<B, E>(self, reply: Result<BlobSidecarList<B>, E>) -> BlobResult<B, E> {
        match reply {
            Ok(list) => Ok(list),
            Err(e) => Err(Rejection::of_chain(e)),
        }
    }

    /// The chain's sidecars, or its failure.
    pub fn answer<B, E>(self, reply: Result<BlobSidecarList<B>, E>) -> (result: BlobResult<B, E>)
        ensures
            result == self.after(reply),
    {
        match reply {
            Ok(list) => Ok(list),
            Err(e) => Err(Rejection::BeaconChainError(BeaconChainError::Chain(e))),
        }
    }
}

impl AskBlobList {
    /// Whether `result` is the outcome after `reply`: a refusal is passed on as it is, and of a
    /// list the sidecars that are wanted are kept, in their order.
    pub open spec fn is_outcome<B, E>(
        self,
        reply: BlobResult<B, E>,
        result: BlobResult<B, E>,
    ) -> bool {
        match reply {
            Err(rejection) => result == Err::<BlobSidecarList<B>, _>(rejection),
            Ok(list) => {
                &&& result matches Ok(kept)
                &&& kept.capacity() == list.capacity()
                &&& kept@ == (match self.indices {
                    Some(indices) => list.selected(indices@),
                    None => list@,
                })
            },
        }
    }

    /// Keeps the sidecars that were asked for. Only a refusal of the lookup is a refusal here:
    /// what is kept of a list always fits into one.
    pub fn answer<B, E>(self, reply: BlobResult<B, E>) -> (result: BlobResult<B, E>)
        ensures
            self.is_outcome(reply, result),
    {
        match reply {
            Err(rejection) => Err(rejection),
            Ok(list) => match self.indices {
                Some(indices) => Ok(list.select(&indices)),
                None => Ok(list),
            },
        }
    }
}

/// A sidecar is kept if and only if it was listed and its index was asked for.
pub proof fn selected_holds_what_was_asked_for<B>(
    list: BlobSidecarList<B>,
    indices: Seq<u64>,
    sidecar: BlobSidecar<B>,
)
    ensures
        list.selected(indices).contains(sidecar) <==> list@.contains(sidecar) && indices.contains(
            sidecar.index,
        ),
        list.selected(indices).len() <= list@.len(),
{
    let wanted = |s: BlobSidecar<B>| indices.contains(s.index);
    crate::seqs::filter_membership(list@, wanted, sidecar);
}

/// Selecting from a list that is one list followed by another gives what is selected from the one,
/// followed by what is selected from the other.
pub proof fn selection_goes_part_by_part<B>(
    first: BlobSidecarList<B>,
    second: BlobSidecarList<B>,
    both: BlobSidecarList<B>,
    indices: Seq<u64>,
)
    requires
        both@ == first@ + second@,
    ensures
        both.selected(indices) == first.selected(indices) + second.selected(indices),
{
    let wanted = |s: BlobSidecar<B>| indices.contains(s.index);
    crate::seqs::filter_appended(first@, second@, wanted);
}

/// From a single sidecar either that sidecar is selected or nothing: the former if and only if its
/// index was asked for. From nothing, nothing is selected.
pub proof fn selection_of_one_sidecar<B>(list: BlobSidecarList<B>, indices: Seq<u64>)
    requires
        list@.len() <= 1,
    ensures
        list@.len() == 1 && indices.contains(list@[0].index) ==> list.selected(indices) == list@,
        list@.len() == 0 || !indices.contains(list@[0].index) ==> list.selected(indices).len() == 0,
{
    let wanted = |s: BlobSidecar<B>| indices.contains(s.index);
    if list@.len() == 1 {
        crate::seqs::filter_first(list@, wanted);
        crate::seqs::filter_none(list@.drop_first(), wanted);
        assert(seq![list@[0]] + Seq::<BlobSidecar<B>>::empty() =~= list@);
    } else {
        crate::seqs::filter_none(list@, wanted);
    }
}

/// A filtered lookup is refused as the lookup of the whole list is. Otherwise it keeps the capacity of
/// the list, what the indices select, and everything where there are none.
pub proof fn filtered_outcome_keeps_what_was_asked_for<B, E>(
    ask: AskBlobList,
    list: BlobSidecarList<B>,
    rejection: Rejection<E>,
    result: BlobResult<B, E>,
    sidecar: BlobSidecar<B>,
)
    ensures
        ask.is_outcome(Err::<BlobSidecarList<B>, _>(rejection), result) ==> result == Err::<
            BlobSidecarList<B>,
            _,
        >(rejection),
        ask.is_outcome(Ok::<_, Rejection<E>>(list), result) ==> {
            &&& result is Ok
            &&& result->Ok_0.capacity() == list.capacity()
            &&& ask.indices is None ==> result->Ok_0@ == list@
            &&& ask.indices is Some ==> result->Ok_0@ == list.selected(ask.indices->0@)
            &&& result->Ok_0@.contains(sidecar) <==> {
                &&& list@.contains(sidecar)
                &&& ask.indices is Some ==> ask.indices->0@.contains(sidecar.index)
            }
        },
{
    if let Some(indices) = ask.indices {
        selected_holds_what_was_asked_for(list, indices@, sidecar);
    }
}

} // verus!
