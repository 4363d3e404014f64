use celestia_blob_client::blob::{Blob, BlobError};
use celestia_blob_client::namespace::{app_namespace, Namespace};

fn their_commitment(id: &[u8], data: &[u8]) -> Vec<u8> {
    let ns = celestia_types::nmt::Namespace::new_v0(id).unwrap();
    let blob = celestia_types::Blob::new(ns, data.to_vec(), None).unwrap();
    blob.commitment.hash().to_vec()
}

#[test]
fn new_blob_keeps_namespace_and_data() {
    let blob = Blob::new(app_namespace(), b"Hello, World!".to_vec()).unwrap();
    assert_eq!(blob.namespace(), &app_namespace());
    assert_eq!(blob.data(), b"Hello, World!");
}

#[test]
fn commitment_is_the_one_celestia_types_computes() {
    let blob = Blob::new(app_namespace(), b"Hello, World!".to_vec()).unwrap();
    assert_eq!(blob.commitment().len(), 32);
    assert_eq!(
        blob.commitment(),
        &their_commitment(&[0xDE, 0xAD, 0xBE, 0xEF], b"Hello, World!")[..]
    );
    assert_ne!(blob.commitment(), blob.data());
    assert_ne!(blob.commitment(), blob.namespace().as_bytes());
}

#[test]
fn commitment_depends_on_data_and_namespace() {
    let a = Blob::new(app_namespace(), b"foo".to_vec()).unwrap();
    let b = Blob::new(app_namespace(), b"bar".to_vec()).unwrap();
    let c = Blob::new(Namespace::new_v0(&[1, 2, 3]).unwrap(), b"foo".to_vec()).unwrap();
    assert_ne!(a.commitment(), b.commitment());
    assert_ne!(a.commitment(), c.commitment());
    assert_eq!(c.commitment(), &their_commitment(&[1, 2, 3], b"foo")[..]);
}

#[test]
fn commitment_is_the_same_every_time() {
    let a = Blob::new(app_namespace(), b"Hello, World!".to_vec()).unwrap();
    let b = Blob::new(app_namespace(), b"Hello, World!".to_vec()).unwrap();
    assert_eq!(a, b);
    assert_eq!(a.commitment(), b.commitment());
}

#[test]
fn empty_and_large_payloads_are_committed() {
    let empty = Blob::new(app_namespace(), Vec::new()).unwrap();
    assert_eq!(empty.commitment(), &their_commitment(&[0xDE, 0xAD, 0xBE, 0xEF], &[])[..]);
    let data = vec![0x5Au8; 100_000];
    let large = Blob::new(app_namespace(), data.clone()).unwrap();
    assert_eq!(large.commitment(), &their_commitment(&[0xDE, 0xAD, 0xBE, 0xEF], &data)[..]);
    assert_eq!(large.data().len(), 100_000);
}

#[test]
fn payloads_of_every_small_length_are_committed() {
    for len in [0usize, 1, 477, 478, 479, 512, 960, 961, 5000] {
        let data = vec![7u8; len];
        let blob = Blob::new(app_namespace(), data.clone()).unwrap();
        assert_eq!(blob.commitment(), &their_commitment(&[0xDE, 0xAD, 0xBE, 0xEF], &data)[..]);
    }
}

#[test]
fn from_parts_keeps_what_it_is_given() {
    let blob = Blob::from_parts(app_namespace(), vec![1, 2, 3], vec![9, 9]);
    assert_eq!(blob.namespace(), &app_namespace());
    assert_eq!(blob.data(), &[1, 2, 3]);
    assert_eq!(blob.commitment(), &[9, 9]);
}

#[test]
fn from_outcome_follows_the_outcome() {
    let made = Blob::from_outcome(app_namespace(), vec![1, 2, 3], Some(vec![7; 32])).unwrap();
    assert_eq!(made, Blob::from_parts(app_namespace(), vec![1, 2, 3], vec![7; 32]));
    let refused = Blob::from_outcome(app_namespace(), vec![1, 2, 3], None);
    assert_eq!(refused, Err(BlobError::Rejected));
}

#[test]
fn has_data_and_has_commitment() {
    let blob = Blob::from_parts(app_namespace(), vec![1, 2, 3], vec![4, 5]);
    assert!(blob.has_data(&[1, 2, 3]));
    assert!(!blob.has_data(&[1, 2]));
    assert!(blob.has_commitment(&[4, 5]));
    assert!(!blob.has_commitment(&[4, 6]));
}

#[test]
fn clone_of_blob_is_equal() {
    let blob = Blob::new(app_namespace(), b"Hello, World!".to_vec()).unwrap();
    let copy = blob.clone();
    assert_eq!(blob, copy);
    assert_eq!(blob.commitment(), copy.commitment());
}
