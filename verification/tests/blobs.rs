use lighthouse_nym::block_id::blobs::{BlobResult, BlobSidecar, BlobSidecarList, BlobStep, OutOfBounds};
use lighthouse_nym::block_id::{BlockId, CoreBlockId, RootResult};
use lighthouse_nym::hash::Hash256;
use lighthouse_nym::rejection::{BeaconChainError, NotFound, Rejection};

const ROOT: Hash256 = Hash256([7; 32]);

fn sidecars(indices: &[u64]) -> Vec<BlobSidecar<String>> {
    indices
        .iter()
        .map(|&index| BlobSidecar { index, sidecar: format!("blob {}", index) })
        .collect()
}

fn list(indices: &[u64]) -> BlobSidecarList<String> {
    match BlobSidecarList::new(sidecars(indices), 6) {
        Ok(list) => list,
        Err(e) => panic!("{:?}", e),
    }
}

fn kept(list: &BlobSidecarList<String>) -> Vec<(u64, String)> {
    let mut all = vec![];
    for i in 0..list.len() {
        match list.get(i) {
            Some(s) => all.push((s.index, s.sidecar.clone())),
            None => panic!("{} sidecars", list.len()),
        }
    }
    all
}

fn run(
    root: RootResult<&'static str>,
    blobs: Result<BlobSidecarList<String>, &'static str>,
) -> BlobResult<String, &'static str> {
    match BlockId(CoreBlockId::Head).blob_sidecar_list::<String, &'static str>() {
        BlobStep::Root(ask) => match ask.answer(root) {
            BlobStep::Blobs(ask) => {
                assert_eq!(ask.root, ROOT);
                ask.answer(blobs)
            }
            BlobStep::Done(result) => result,
            BlobStep::Root(_) => panic!("asked twice"),
        },
        other => panic!("{:?}", other),
    }
}

fn filtered(indices: Option<Vec<u64>>, all: &[u64]) -> Vec<(u64, String)> {
    let ask = BlockId(CoreBlockId::Head).blob_sidecar_list_filtered(indices);
    assert!(matches!(ask.id.0, CoreBlockId::Head));
    match ask.answer(run(Ok((ROOT, false, true)), Ok(list(all)))) {
        Ok(list) => kept(&list),
        Err(rejection) => panic!("{:?}", rejection),
    }
}

#[test]
fn list_holds_no_more_than_it_may() {
    assert!(BlobSidecarList::new(sidecars(&[0, 1]), 2).is_ok());
    match BlobSidecarList::new(sidecars(&[0, 1, 2]), 2) {
        Err(e) => assert_eq!(e, OutOfBounds { i: 3, len: 2 }),
        Ok(list) => panic!("{:?}", list),
    }
}

#[test]
fn sidecars_of_the_root_that_was_found() {
    match run(Ok((ROOT, true, false)), Ok(list(&[0, 1]))) {
        Ok(list) => {
            assert_eq!(kept(&list), [(0, "blob 0".to_string()), (1, "blob 1".to_string())]);
            assert!(list.get(2).is_none());
        }
        Err(rejection) => panic!("{:?}", rejection),
    }
}

#[test]
fn root_of_the_identifier_is_asked_for() {
    match BlockId::from_root(ROOT).blob_sidecar_list::<u8, u8>() {
        BlobStep::Root(ask) => {
            assert!(matches!(ask.id.0, CoreBlockId::Root(root) if root == ROOT));
        }
        other => panic!("{:?}", other),
    }
    match BlockId(CoreBlockId::Justified).blob_sidecar_list::<u8, u8>() {
        BlobStep::Root(ask) => assert!(matches!(ask.id.0, CoreBlockId::Justified)),
        other => panic!("{:?}", other),
    }
}

#[test]
fn refused_root_has_no_sidecars() {
    let refused = Err(Rejection::CustomNotFound(NotFound::BlockWithRoot(ROOT)));
    assert!(matches!(
        run(refused, Ok(list(&[0]))),
        Err(Rejection::CustomNotFound(NotFound::BlockWithRoot(_)))
    ));
}

#[test]
fn failing_sidecars_are_a_failure_of_the_chain() {
    assert!(matches!(
        run(Ok((ROOT, true, false)), Err("blobs")),
        Err(Rejection::BeaconChainError(BeaconChainError::Chain("blobs")))
    ));
}

#[test]
fn without_indices_every_sidecar_is_kept() {
    let indices: Vec<u64> = filtered(None, &[0, 1, 2]).iter().map(|s| s.0).collect();
    assert_eq!(indices, [0, 1, 2]);
}

#[test]
fn only_the_sidecars_that_were_asked_for_are_kept_in_their_order() {
    assert_eq!(
        filtered(Some(vec![4, 9, 1, 1]), &[0, 1, 2, 3, 4]),
        [(1, "blob 1".to_string()), (4, "blob 4".to_string())]
    );
    assert!(filtered(Some(vec![]), &[0, 1]).is_empty());
}

#[test]
fn refused_list_stays_refused_when_filtered() {
    let ask = BlockId(CoreBlockId::Head).blob_sidecar_list_filtered(Some(vec![0]));
    assert!(matches!(
        ask.answer(run(Ok((ROOT, true, false)), Err("blobs"))),
        Err(Rejection::BeaconChainError(BeaconChainError::Chain("blobs")))
    ));
}
