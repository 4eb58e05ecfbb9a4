use nft_kitties::identity::{gen_dna, gen_gender, Gender};
use nft_kitties::registry::{AccountId, Error, NftKitties};

fn account(tag: u8) -> AccountId {
    AccountId { bytes: [tag; 32] }
}

#[test]
fn default_works() {
    let reg = NftKitties::new();
    assert_eq!(reg.len(), 0);
}

#[test]
fn it_works() {
    let mut reg = NftKitties::new();
    let a = account(1);
    let r = reg.create_kitty(a, vec![1, 2, 3], a, 1);
    assert_eq!(r, Ok(()));
    assert_eq!(reg.len(), 1);
}

#[test]
fn gender_of_even_length_is_male() {
    assert_eq!(gen_gender(&vec![1, 2]), Ok(Gender::Male));
    assert_eq!(gen_gender(&vec![5, 6, 7, 8]), Ok(Gender::Male));
}

#[test]
fn gender_of_odd_length_is_female() {
    assert_eq!(gen_gender(&vec![1]), Ok(Gender::Female));
    assert_eq!(gen_gender(&vec![1, 2, 3]), Ok(Gender::Female));
}

#[test]
fn gender_of_empty_input_is_male() {
    assert_eq!(gen_gender(&vec![]), Ok(Gender::Male));
}

#[test]
fn identifier_derivation_is_deterministic() {
    let h1 = gen_dna(vec![1, 2, 3, 4], 10);
    let h2 = gen_dna(vec![1, 2, 3, 4], 10);
    assert_eq!(h1, h2);
}

#[test]
fn identifier_depends_on_counter() {
    let h1 = gen_dna(vec![1, 2, 3, 4], 10);
    let h2 = gen_dna(vec![1, 2, 3, 4], 11);
    assert_ne!(h1, h2);
}

#[test]
fn identifier_depends_on_raw_bytes() {
    let h1 = gen_dna(vec![1], 10);
    let h2 = gen_dna(vec![2], 10);
    assert_ne!(h1, h2);
}

#[test]
fn identifier_is_a_digest_not_the_input() {
    // The SCALE encoding of `(0, [])` is five zero bytes; a derivation that
    // handed the (padded) encoding back unchanged would return all zeroes.
    let h = gen_dna(vec![], 0);
    assert_ne!(h.bytes, [0u8; 32]);
}

#[test]
fn duplicate_creation_is_rejected() {
    let mut reg = NftKitties::new();
    let a = account(1);
    assert_eq!(reg.create_kitty(a, vec![7, 7, 7], a, 3), Ok(()));
    assert_eq!(reg.create_kitty(a, vec![7, 7, 7], a, 3), Err(Error::DuplicateKitty));
    assert_eq!(reg.len(), 1);
    let id = gen_dna(vec![7, 7, 7], 3);
    assert!(reg.contains(&id));
}

#[test]
fn same_bytes_at_another_counter_are_accepted() {
    let mut reg = NftKitties::new();
    let a = account(1);
    assert_eq!(reg.create_kitty(a, vec![7, 7, 7], a, 3), Ok(()));
    assert_eq!(reg.create_kitty(a, vec![7, 7, 7], a, 4), Ok(()));
    assert_eq!(reg.len(), 2);
}

#[test]
fn foreign_caller_is_rejected() {
    let mut reg = NftKitties::new();
    let owner = account(1);
    let caller = account(2);
    assert_eq!(reg.create_kitty(owner, vec![1, 2], caller, 0), Err(Error::NotOwner));
    assert_eq!(reg.len(), 0);
    assert_eq!(reg.events().len(), 0);
}

#[test]
fn creation_end_to_end() {
    let mut reg = NftKitties::new();
    let a = account(1);
    assert_eq!(reg.create_kitty(a, vec![1, 2, 3, 4], a, 10), Ok(()));
    assert_eq!(reg.len(), 1);
    let id = gen_dna(vec![1, 2, 3, 4], 10);
    let stored = reg.get(&id).expect("the record must be stored under its identifier");
    assert_eq!(stored.gender, Gender::Male);
    assert_eq!(stored.dna, id);
    assert_eq!(stored.owner, a);
    assert_eq!(reg.events().len(), 1);
    assert_eq!(reg.events()[0].kitty, id);
    assert_eq!(reg.events()[0].owner, a);
}

#[test]
fn repeated_creation_fails_and_keeps_size() {
    let mut reg = NftKitties::new();
    let a = account(1);
    assert_eq!(reg.create_kitty(a, vec![1, 2, 3, 4], a, 10), Ok(()));
    assert_eq!(reg.create_kitty(a, vec![1, 2, 3, 4], a, 10), Err(Error::DuplicateKitty));
    assert_eq!(reg.len(), 1);
    assert_eq!(reg.events().len(), 1);
}

#[test]
fn foreign_caller_leaves_registry_unchanged() {
    let mut reg = NftKitties::new();
    let a = account(1);
    let b = account(2);
    assert_eq!(reg.create_kitty(a, vec![1, 2, 3, 4], a, 10), Ok(()));
    assert_eq!(reg.create_kitty(a, vec![9], b, 11), Err(Error::NotOwner));
    assert_eq!(reg.len(), 1);
}

#[test]
fn no_event_on_failure() {
    let mut reg = NftKitties::new();
    let a = account(1);
    let b = account(2);
    assert_eq!(reg.create_kitty(a, vec![5], b, 0), Err(Error::NotOwner));
    assert_eq!(reg.events().len(), 0);
    assert_eq!(reg.create_kitty(a, vec![5], a, 0), Ok(()));
    assert_eq!(reg.create_kitty(a, vec![5], a, 0), Err(Error::DuplicateKitty));
    assert_eq!(reg.events().len(), 1);
}

#[test]
fn take_events_drains_the_queue() {
    let mut reg = NftKitties::new();
    let a = account(1);
    assert_eq!(reg.create_kitty(a, vec![1], a, 1), Ok(()));
    assert_eq!(reg.create_kitty(a, vec![2], a, 1), Ok(()));
    let taken = reg.take_events();
    assert_eq!(taken.len(), 2);
    assert_eq!(taken[0].kitty, gen_dna(vec![1], 1));
    assert_eq!(taken[1].kitty, gen_dna(vec![2], 1));
    assert_eq!(reg.events().len(), 0);
    assert_eq!(reg.len(), 2);
}
