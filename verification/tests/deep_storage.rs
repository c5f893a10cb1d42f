use lighthouse_nym::deep_storage::{
    DeepStorageBlock, DeepStorageBlockAltair, DeepStorageBlockBase, DeepStorageBlockCapella,
    DeepStorageBlockDeneb, DeepStorageBlockMerge, ExecutionPayloadHeader, ForkName,
    SignedBeaconBlock,
};
use lighthouse_nym::hash::Hash256;
use lighthouse_nym::rejection::Rejection;

const ROOT: Hash256 = Hash256([1; 32]);
const EXECUTION: Hash256 = Hash256([2; 32]);
const BRANCH: Hash256 = Hash256([3; 32]);

type Block = SignedBeaconBlock<&'static str, u32, bool>;
type Stored = DeepStorageBlock<&'static str, u32, bool>;

fn block(fork_name: ForkName) -> Block {
    SignedBeaconBlock {
        fork_name,
        canonical_root: ROOT,
        execution_payload: match fork_name {
            ForkName::Merge => Ok(ExecutionPayloadHeader::Merge("merge")),
            ForkName::Capella => Ok(ExecutionPayloadHeader::Capella(15)),
            ForkName::Deneb => Ok(ExecutionPayloadHeader::Deneb(true)),
            _ => Err("IncorrectStateVariant".to_string()),
        },
        execution_branch: match fork_name {
            ForkName::Base | ForkName::Altair => None,
            _ => Some(vec![EXECUTION]),
        },
        variant_error: "wrong variant".to_string(),
    }
}

fn stored(fork_name: ForkName) -> Stored {
    let branch = vec![BRANCH];
    match fork_name {
        ForkName::Base => DeepStorageBlock::Base(DeepStorageBlockBase {
            block_root: ROOT,
            block_root_branch: branch,
        }),
        ForkName::Altair => DeepStorageBlock::Altair(DeepStorageBlockAltair {
            block_root: ROOT,
            block_root_branch: branch,
        }),
        ForkName::Merge => match DeepStorageBlockMerge::new::<u32, bool, u8>(block(fork_name), branch) {
            Ok(b) => DeepStorageBlock::Merge(b),
            Err(e) => panic!("{:?}", e),
        },
        ForkName::Capella => {
            match DeepStorageBlockCapella::new::<&'static str, bool, u8>(block(fork_name), branch) {
                Ok(b) => DeepStorageBlock::Capella(b),
                Err(e) => panic!("{:?}", e),
            }
        }
        ForkName::Deneb => {
            match DeepStorageBlockDeneb::new::<&'static str, u32, u8>(block(fork_name), branch) {
                Ok(b) => DeepStorageBlock::Deneb(b),
                Err(e) => panic!("{:?}", e),
            }
        }
    }
}

const FORKS: [ForkName; 5] =
    [ForkName::Base, ForkName::Altair, ForkName::Merge, ForkName::Capella, ForkName::Deneb];

#[test]
fn every_block_has_a_root_and_its_branch() {
    for fork in FORKS {
        assert_eq!(stored(fork).block_root(), ROOT);
        assert_eq!(*stored(fork).block_root_branch(), vec![BRANCH]);
    }
}

#[test]
fn blocks_from_the_merge_on_have_an_execution_branch() {
    for fork in FORKS {
        let block = stored(fork);
        let expected = match fork {
            ForkName::Base | ForkName::Altair => Err(()),
            _ => Ok(vec![EXECUTION]),
        };
        assert_eq!(block.execution_branch().map(|branch| branch.clone()), expected);
    }
}

#[test]
fn headers_are_those_of_their_fork_alone() {
    for fork in FORKS {
        let block = stored(fork);
        let merge = block.execution_payload_header_merge();
        assert_eq!(merge, if fork == ForkName::Merge { Ok(&"merge") } else { Err(()) });
        let capella = block.execution_payload_header_capella();
        assert_eq!(capella, if fork == ForkName::Capella { Ok(&15) } else { Err(()) });
        let deneb = block.execution_payload_header_deneb();
        assert_eq!(deneb, if fork == ForkName::Deneb { Ok(&true) } else { Err(()) });
    }
}

#[test]
fn blocks_of_other_forks_are_refused() {
    for fork in FORKS {
        let mut taken = 0;
        let results = [
            DeepStorageBlockMerge::new::<u32, bool, u8>(block(fork), vec![]).map(|_| ()),
            DeepStorageBlockCapella::new::<&'static str, bool, u8>(block(fork), vec![]).map(|_| ()),
            DeepStorageBlockDeneb::new::<&'static str, u32, u8>(block(fork), vec![]).map(|_| ()),
        ];
        for result in results {
            match result {
                Ok(()) => taken += 1,
                Err(Rejection::CustomServerError(text)) => assert_eq!(text, "wrong variant"),
                Err(other) => panic!("{:?}", other),
            }
        }
        let has_payload = !matches!(fork, ForkName::Base | ForkName::Altair);
        assert_eq!(taken, if has_payload { 1 } else { 0 });
    }
}

#[test]
fn blocks_without_a_payload_are_refused() {
    let text = |e: Rejection<u8>| match e {
        Rejection::CustomServerError(text) => text,
        other => panic!("{:?}", other),
    };
    let bare = |fork| Block { execution_payload: Err("no payload".to_string()), ..block(fork) };
    let merge = DeepStorageBlockMerge::new::<u32, bool, u8>(bare(ForkName::Merge), vec![]);
    assert_eq!(merge.map(|_| ()).map_err(text), Err("no payload".to_string()));
    let capella =
        DeepStorageBlockCapella::new::<&'static str, bool, u8>(bare(ForkName::Capella), vec![]);
    assert_eq!(capella.map(|_| ()).map_err(text), Err("no payload".to_string()));
    let deneb = DeepStorageBlockDeneb::new::<&'static str, u32, u8>(bare(ForkName::Deneb), vec![]);
    assert_eq!(deneb.map(|_| ()).map_err(text), Err("no payload".to_string()));
    // The wrong fork comes first.
    let wrong = DeepStorageBlockMerge::new::<u32, bool, u8>(bare(ForkName::Capella), vec![]);
    assert_eq!(wrong.map(|_| ()).map_err(text), Err("wrong variant".to_string()));
}
