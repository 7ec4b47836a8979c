use std::collections::HashMap;

use doc_manage_platform::ledger::{LedgerCall, INITIAL_SHARES, VERSION_KEY_BYTE};
use doc_manage_platform::registry::NftCollection;
use doc_manage_platform::types::{AccountId, Error, NftDocument, PostOwner, UserRole, Version};

fn account(b: u8) -> AccountId {
    AccountId([b; 32])
}

fn bytes(s: &str) -> Vec<u8> {
    s.as_bytes().to_vec()
}

/// A stand-in ledger that keeps attributes only, keyed by (asset, key).
#[derive(Default)]
struct Attributes {
    values: HashMap<(u32, Vec<u8>), Vec<u8>>,
}

impl Attributes {
    fn apply(&mut self, calls: &[LedgerCall]) {
        for call in calls {
            if let LedgerCall::SetAttribute { asset_id, key, value } = call {
                self.values.insert((*asset_id, key.clone()), value.clone());
            }
        }
    }

    fn get(&self, asset_id: u32, key: &[u8]) -> Option<&Vec<u8>> {
        self.values.get(&(asset_id, key.to_vec()))
    }
}

fn create(
    reg: &mut NftCollection,
    ledger: &mut Attributes,
    caller: AccountId,
    title: &str,
    hash: &str,
    co: Vec<(AccountId, u128)>,
) -> u32 {
    let calls = reg.create_document_calls(caller, &bytes(hash), &co).unwrap();
    ledger.apply(&calls);
    reg.create_document(caller, bytes(title), bytes(hash), co, true).unwrap().doc_id
}

fn new_version(reg: &mut NftCollection, ledger: &mut Attributes, caller: AccountId, id: u32, hash: &str) {
    let calls = reg.create_version_document_calls(id, &bytes(hash)).unwrap();
    ledger.apply(&calls);
    reg.create_version_document(caller, id, bytes(hash), true).unwrap();
}

#[test]
fn end_to_end_scenario() {
    let (a, b) = (account(1), account(2));
    let mut reg = NftCollection::new();
    let mut ledger = Attributes::default();
    assert_eq!(reg.get_nfts_length(), 0);
    let id = create(&mut reg, &mut ledger, a, "Doc#0", "ipfs://abc", vec![]);
    assert_eq!(id, 0);
    assert_eq!(reg.get_nfts_length(), 1);
    let doc = reg.get_document_by_id(0).unwrap();
    assert_eq!(doc.owner, a);
    assert_eq!(doc.title, bytes("Doc#0"));
    assert_eq!(doc.members, vec![PostOwner { user: a, user_role: UserRole::Owner }]);
    assert_eq!(doc.versions, Version { contributor: a, ipfs_hash: bytes("ipfs://abc") });

    new_version(&mut reg, &mut ledger, b, 0, "ipfs://def");
    assert_eq!(reg.get_version(0), Ok(Version { contributor: b, ipfs_hash: bytes("ipfs://def") }));
    assert_eq!(ledger.get(0, b"0"), Some(&bytes("ipfs://def")));
}

#[test]
fn membership_ordering() {
    let (a, b, c) = (account(1), account(2), account(3));
    let mut reg = NftCollection::new();
    let mut ledger = Attributes::default();
    let id = create(&mut reg, &mut ledger, a, "T", "h0", vec![(b, 10), (c, 20)]);
    assert_eq!(
        reg.get_contributors(id),
        Ok(vec![
            PostOwner { user: a, user_role: UserRole::Owner },
            PostOwner { user: b, user_role: UserRole::CoAuthor },
            PostOwner { user: c, user_role: UserRole::CoAuthor },
        ])
    );
}

#[test]
fn creation_calls_in_order() {
    let (a, b, c) = (account(1), account(2), account(3));
    let reg = NftCollection::new();
    let calls = reg.create_document_calls(a, &bytes("h0"), &vec![(b, 10), (c, 20)]).unwrap();
    assert_eq!(
        calls,
        vec![
            LedgerCall::Mint { to: a, asset_id: 0, amount: 100000 },
            LedgerCall::SetAttribute { asset_id: 0, key: vec![b'0'], value: bytes("h0") },
            LedgerCall::Transfer { to: b, asset_id: 0, amount: 10, data: bytes("h0") },
            LedgerCall::Transfer { to: c, asset_id: 0, amount: 20, data: bytes("h0") },
        ]
    );
    assert_eq!(INITIAL_SHARES, 100000);
    assert_eq!(VERSION_KEY_BYTE, b'0');
}

#[test]
fn ids_equal_positions() {
    let mut reg = NftCollection::new();
    let mut ledger = Attributes::default();
    for i in 0..5u8 {
        let id = create(&mut reg, &mut ledger, account(i), "t", "h", vec![]);
        assert_eq!(id, i as u32);
    }
    new_version(&mut reg, &mut ledger, account(9), 2, "h2");
    let all = reg.get_nfts();
    assert_eq!(all.len(), 5);
    for (i, d) in all.iter().enumerate() {
        assert_eq!(d.id, i as u32);
        assert_eq!(reg.get_document_by_id(i as u32).unwrap().id, i as u32);
        assert_eq!(d.owner, account(i as u8));
    }
}

#[test]
fn last_version_write_wins() {
    let mut reg = NftCollection::new();
    let mut ledger = Attributes::default();
    create(&mut reg, &mut ledger, account(1), "t", "v0", vec![(account(2), 5)]);
    for n in 1..=4u8 {
        new_version(&mut reg, &mut ledger, account(n), 0, &format!("v{}", n));
    }
    assert_eq!(reg.get_version(0), Ok(Version { contributor: account(4), ipfs_hash: bytes("v4") }));
    assert_eq!(reg.get_ipfs_hash_version(0), Ok(bytes("v4")));
    let doc = reg.get_document_by_id(0).unwrap();
    assert_eq!(doc.owner, account(1));
    assert_eq!(doc.members.len(), 2);
    assert_eq!(ledger.get(0, b"0"), Some(&bytes("v4")));
}

#[test]
fn attribute_tracks_current_version() {
    let mut reg = NftCollection::new();
    let mut ledger = Attributes::default();
    create(&mut reg, &mut ledger, account(1), "a", "x0", vec![]);
    create(&mut reg, &mut ledger, account(1), "b", "y0", vec![]);
    assert_eq!(ledger.get(1, b"0"), Some(&reg.get_ipfs_hash_version(1).unwrap()));
    new_version(&mut reg, &mut ledger, account(3), 1, "y1");
    assert_eq!(ledger.get(1, b"0"), Some(&reg.get_ipfs_hash_version(1).unwrap()));
    assert_eq!(ledger.get(0, b"0"), Some(&reg.get_ipfs_hash_version(0).unwrap()));
    assert_eq!(reg.get_ipfs_hash_version(0), Ok(bytes("x0")));
}

#[test]
fn out_of_range_ids_are_not_found() {
    let mut reg = NftCollection::new();
    let mut ledger = Attributes::default();
    assert_eq!(reg.get_version(0), Err(Error::TokenNotFound));
    create(&mut reg, &mut ledger, account(1), "t", "h", vec![]);
    assert!(reg.get_document_by_id(1).is_none());
    assert_eq!(reg.get_version(1), Err(Error::TokenNotFound));
    assert_eq!(reg.get_ipfs_hash_version(7), Err(Error::TokenNotFound));
    assert_eq!(reg.get_contributors(u32::MAX), Err(Error::TokenNotFound));
    assert_eq!(reg.create_version_document_calls(1, &bytes("z")), Err(Error::TokenNotFound));
    assert_eq!(
        reg.create_version_document(account(1), 1, bytes("z"), true),
        Err(Error::TokenNotFound)
    );
    assert_eq!(reg.get_nfts_length(), 1);
    assert_eq!(reg.get_ipfs_hash_version(0), Ok(bytes("h")));
}

#[test]
fn count_moves_only_on_creation() {
    let mut reg = NftCollection::new();
    let mut ledger = Attributes::default();
    for n in 1..=3u32 {
        create(&mut reg, &mut ledger, account(1), "t", "h", vec![]);
        assert_eq!(reg.get_nfts_length(), n);
    }
    new_version(&mut reg, &mut ledger, account(2), 1, "h1");
    let _ = reg.get_nfts();
    let _ = reg.get_version(0);
    assert_eq!(reg.get_nfts_length(), 3);
}

#[test]
fn failed_ledger_leaves_registry_unchanged() {
    let mut reg = NftCollection::new();
    let mut ledger = Attributes::default();
    let r = reg.create_document(account(1), bytes("t"), bytes("h"), vec![(account(2), 1)], false);
    assert_eq!(r, Err(Error::TokenOperationFailed));
    assert_eq!(reg.get_nfts_length(), 0);
    create(&mut reg, &mut ledger, account(1), "t", "h", vec![]);
    let r = reg.create_version_document(account(2), 0, bytes("h2"), false);
    assert_eq!(r, Err(Error::TokenOperationFailed));
    assert_eq!(reg.get_version(0), Ok(Version { contributor: account(1), ipfs_hash: bytes("h") }));
}

#[test]
fn events_describe_the_change() {
    let mut reg = NftCollection::new();
    let e = reg.create_document(account(1), bytes("T"), bytes("h0"), vec![], true).unwrap();
    assert_eq!((e.doc_id, e.title, e.hash), (0, bytes("T"), bytes("h0")));
    let v = reg.create_version_document(account(5), 0, bytes("h1"), true).unwrap();
    assert_eq!((v.contributor, v.doc_id, v.hash), (account(5), 0, bytes("h1")));
}

#[test]
fn add_nft_checks_position_and_owner() {
    let mut reg = NftCollection::new();
    let owner = PostOwner { user: account(1), user_role: UserRole::Owner };
    let doc = |id: u32, members: Vec<PostOwner>| NftDocument {
        id,
        owner: account(1),
        title: bytes("t"),
        members,
        versions: Version { contributor: account(1), ipfs_hash: bytes("h") },
    };
    assert_eq!(reg.add_nft(doc(1, vec![owner])), Err(Error::CannotInsert));
    assert_eq!(reg.add_nft(doc(0, vec![])), Err(Error::CannotInsert));
    let co = PostOwner { user: account(1), user_role: UserRole::CoAuthor };
    assert_eq!(reg.add_nft(doc(0, vec![co])), Err(Error::CannotInsert));
    let other = PostOwner { user: account(2), user_role: UserRole::Owner };
    assert_eq!(reg.add_nft(doc(0, vec![other])), Err(Error::CannotInsert));
    assert_eq!(reg.get_nfts_length(), 0);
    assert_eq!(reg.add_nft(doc(0, vec![owner, co])), Ok(()));
    assert_eq!(reg.get_nfts_length(), 1);
    assert_eq!(reg.get_document_by_id(0), Some(doc(0, vec![owner, co])));
}

#[test]
fn pass_through_requests() {
    let reg = NftCollection::new();
    let (a, b) = (account(1), account(2));
    assert_eq!(reg.get_total_supply_nft_doc(Some(3)), LedgerCall::TotalSupply { asset_id: Some(3) });
    assert_eq!(reg.get_balance_of_nft_doc(a, None), LedgerCall::BalanceOf { owner: a, asset_id: None });
    assert_eq!(
        reg.get_allowance_nft_doc(a, b, Some(1)),
        LedgerCall::Allowance { owner: a, operator: b, asset_id: Some(1) }
    );
    assert_eq!(reg.approve_nft_doc(b, Some(1), 7), LedgerCall::Approve { operator: b, asset_id: Some(1), amount: 7 });
    assert_eq!(
        reg.get_attribute_version_nft_doc(4, bytes("0")),
        LedgerCall::GetAttribute { asset_id: 4, key: bytes("0") }
    );
    assert_eq!(
        reg.transfer_nft_doc(b, 4, 9, vec![1, 2]),
        LedgerCall::Transfer { to: b, asset_id: 4, amount: 9, data: vec![1, 2] }
    );
}

#[test]
fn reward_settlement_is_a_no_op() {
    let mut reg = NftCollection::new();
    let mut ledger = Attributes::default();
    create(&mut reg, &mut ledger, account(1), "t", "h", vec![]);
    assert_eq!(reg.reward_native_token(true, vec![(account(2), true), (account(3), false)], 0), Ok(()));
    assert_eq!(reg.reward_native_token(false, vec![], 0), Ok(()));
    assert_eq!(reg.get_nfts_length(), 1);
}

#[test]
fn account_comparison() {
    let mut x = [7u8; 32];
    assert!(AccountId(x).same(&AccountId(x)));
    x[31] = 8;
    assert!(!AccountId([7u8; 32]).same(&AccountId(x)));
    assert!(!account(1).same(&account(2)));
}
