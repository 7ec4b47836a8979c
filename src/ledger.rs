use vstd::prelude::*;
use crate::types::AccountId;

verus! {

/// Shares of a fresh document's asset credited to its creator.
pub const INITIAL_SHARES: u128 = 100000;

/// The single byte of the attribute key (ASCII `0`) under which the ledger
/// keeps a document's current content hash.
pub const VERSION_KEY_BYTE: u8 = 0x30;

/// A request to the multi-asset ledger. Asset ids are document ids.
#[derive(Debug, PartialEq, Eq)]
#[allow(inconsistent_fields)]
pub enum LedgerCall {
    Mint { to: AccountId, asset_id: u32, amount: u128 },
    SetAttribute { asset_id: u32, key: Vec<u8>, value: Vec<u8> },
    Transfer { to: AccountId, asset_id: u32, amount: u128, data: Vec<u8> },
    Approve { operator: AccountId, asset_id: Option<u32>, amount: u128 },
    GetAttribute { asset_id: u32, key: Vec<u8> },
    TotalSupply { asset_id: Option<u32> },
    BalanceOf { owner: AccountId, asset_id: Option<u32> },
    Allowance { owner: AccountId, operator: AccountId, asset_id: Option<u32> },
}

/// A ledger call as a mathematical value.
#[allow(inconsistent_fields)]
pub enum LedgerCallView {
    Mint { to: AccountId, asset_id: u32, amount: u128 },
    SetAttribute { asset_id: u32, key: Seq<u8>, value: Seq<u8> },
    Transfer { to: AccountId, asset_id: u32, amount: u128, data: Seq<u8> },
    Approve { operator: AccountId, asset_id: Option<u32>, amount: u128 },
    GetAttribute { asset_id: u32, key: Seq<u8> },
    TotalSupply { asset_id: Option<u32> },
    BalanceOf { owner: AccountId, asset_id: Option<u32> },
    Allowance { owner: AccountId, operator: AccountId, asset_id: Option<u32> },
}

impl View for LedgerCall {
    type V = LedgerCallView;

    open spec fn view(&self) -> LedgerCallView {
        match self {
            LedgerCall::Mint { to, asset_id, amount } => LedgerCallView::Mint {
                to: *to,
                asset_id: *asset_id,
                amount: *amount,
            },
            LedgerCall::SetAttribute { asset_id, key, value } => LedgerCallView::SetAttribute {
                asset_id: *asset_id,
                key: key@,
                value: value@,
            },
            LedgerCall::Transfer { to, asset_id, amount, data } => LedgerCallView::Transfer {
                to: *to,
                asset_id: *asset_id,
                amount: *amount,
                data: data@,
            },
            LedgerCall::Approve { operator, asset_id, amount } => LedgerCallView::Approve {
                operator: *operator,
                asset_id: *asset_id,
                amount: *amount,
            },
            LedgerCall::GetAttribute { asset_id, key } => LedgerCallView::GetAttribute {
                asset_id: *asset_id,
                key: key@,
            },
            LedgerCall::TotalSupply { asset_id } => LedgerCallView::TotalSupply {
                asset_id: *asset_id,
            },
            LedgerCall::BalanceOf { owner, asset_id } => LedgerCallView::BalanceOf {
                owner: *owner,
                asset_id: *asset_id,
            },
            LedgerCall::Allowance { owner, operator, asset_id } => LedgerCallView::Allowance {
                owner: *owner,
                operator: *operator,
                asset_id: *asset_id,
            },
        }
    }
}

/// The attribute key under which a document's content hash is kept.
pub open spec fn version_key() -> Seq<u8> {
    seq![VERSION_KEY_BYTE]
}

/// The view of a sequence of ledger calls.
pub open spec fn calls_view(calls: Seq<LedgerCall>) -> Seq<LedgerCallView> {
    calls.map_values(|c: LedgerCall| c@)
}

/// The ledger calls that registering document `doc_id` takes: mint the
/// creator's shares, record the content hash, then hand each co-author their
/// shares, in the order given.
pub open spec fn creation_calls(
    doc_id: u32,
    caller: AccountId,
    hash: Seq<u8>,
    co_authors: Seq<(AccountId, u128)>,
) -> Seq<LedgerCallView> {
    seq![
        LedgerCallView::Mint { to: caller, asset_id: doc_id, amount: INITIAL_SHARES },
        LedgerCallView::SetAttribute { asset_id: doc_id, key: version_key(), value: hash },
    ] + co_authors.map_values(
        |p: (AccountId, u128)|
            LedgerCallView::Transfer { to: p.0, asset_id: doc_id, amount: p.1, data: hash },
    )
}

/// The ledger calls that replacing the current version of `doc_id` takes.
pub open spec fn version_calls(doc_id: u32, hash: Seq<u8>) -> Seq<LedgerCallView> {
    seq![LedgerCallView::SetAttribute { asset_id: doc_id, key: version_key(), value: hash }]
}

/// The key of the version attribute, as bytes.
pub fn version_key_bytes() -> (r: Vec<u8>)
    ensures
        r@ == version_key(),
{
    let mut r: Vec<u8> = Vec::new();
    r.push(VERSION_KEY_BYTE);
    assert(r@ =~= version_key());
    r
}

} // verus!
