use vstd::prelude::*;
use crate::ledger::{
    calls_view, creation_calls, version_calls, version_key_bytes, LedgerCall, LedgerCallView,
    INITIAL_SHARES,
};
use crate::types::{
    AccountId, DocumentCreated, DocumentView, Error, NftDocument, PostOwner, UserRole, Version,
    VersionCreated, VersionView,
};

verus! {

/// Most documents the registry holds: every id, and the count, fit in a `u32`.
pub open spec fn capacity() -> nat {
    u32::MAX as nat
}

/// The roster of a fresh document: the creator as owner, then each co-author
/// in the order given.
pub open spec fn roster(caller: AccountId, co_authors: Seq<(AccountId, u128)>) -> Seq<PostOwner> {
    seq![PostOwner { user: caller, user_role: UserRole::Owner }] + co_authors.map_values(
        |p: (AccountId, u128)| PostOwner { user: p.0, user_role: UserRole::CoAuthor },
    )
}

/// The record of a fresh document.
pub open spec fn new_document(
    doc_id: u32,
    caller: AccountId,
    title: Seq<u8>,
    hash: Seq<u8>,
    co_authors: Seq<(AccountId, u128)>,
) -> DocumentView {
    DocumentView {
        id: doc_id,
        owner: caller,
        title,
        members: roster(caller, co_authors),
        version: VersionView { contributor: caller, ipfs_hash: hash },
    }
}

/// `docs` with the current version of document `doc_id` replaced.
pub open spec fn with_version(
    docs: Seq<DocumentView>,
    doc_id: int,
    caller: AccountId,
    hash: Seq<u8>,
) -> Seq<DocumentView> {
    docs.update(
        doc_id,
        DocumentView {
            version: VersionView { contributor: caller, ipfs_hash: hash },
            ..docs[doc_id]
        },
    )
}

/// A document that may stand at position `i`: its id is its position, and its
/// roster opens with its owner in the owner role.
pub open spec fn document_fits(d: DocumentView, i: int) -> bool {
    &&& d.id == i
    &&& d.members.len() > 0
    &&& d.members[0] == PostOwner { user: d.owner, user_role: UserRole::Owner }
}

/// The invariant of the document list.
pub open spec fn docs_wf(docs: Seq<DocumentView>) -> bool {
    &&& docs.len() <= capacity()
    &&& forall|i: int| 0 <= i < docs.len() ==> #[trigger] document_fits(docs[i], i)
}

/// The document registry: an append-only list of documents, indexed by id.
pub struct NftCollection {
    docs: Vec<NftDocument>,
}

impl View for NftCollection {
    type V = Seq<DocumentView>;

    closed spec fn view(&self) -> Seq<DocumentView> {
        self.docs@.map_values(|d: NftDocument| d@)
    }
}

impl NftCollection {
    /// The registry's invariant, over its view.
    pub open spec fn wf(&self) -> bool {
        docs_wf(self@)
    }

    /// An empty registry.
    pub fn new() -> (r: Self)
        ensures
            r@ == Seq::<DocumentView>::empty(),
            r.wf(),
    {
        let r = NftCollection { docs: Vec::new() };
        assert(r@ =~= Seq::<DocumentView>::empty());
        r
    }

    /// The number of documents.
    pub fn get_nfts_length(&self) -> (r: u32)
        requires
            self.wf(),
        ensures
            r == self@.len(),
    {
        self.docs.len() as u32
    }

    /// Appends `nft` when it may stand at the end of the list; otherwise
    /// leaves the registry as it was and fails with `CannotInsert`.
    pub fn add_nft(&mut self, nft: NftDocument) -> (r: Result<(), Error>)
        requires
            old(self).wf(),
        ensures
            final(self).wf(),
            r is Ok <==> (old(self)@.len() < capacity() && document_fits(
                nft@,
                old(self)@.len() as int,
            )),
            r is Ok ==> final(self)@ == old(self)@.push(nft@),
            r is Err ==> r == Err::<(), Error>(Error::CannotInsert) && final(self)@ == old(self)@,
    {
        let len = self.docs.len();
        if len >= u32::MAX as usize || nft.id as usize != len || nft.members.len() == 0 {
            return Err(Error::CannotInsert);
        }
        let first = nft.members[0];
        if !first.user.same(&nft.owner) || first.user_role != UserRole::Owner {
            return Err(Error::CannotInsert);
        }
        proof {
            assert(first.user == nft.owner);
        }
        self.docs.push(nft);
        proof {
            assert(self@ =~= old(self)@.push(nft@));
            assert forall|i: int| 0 <= i < self@.len() implies #[trigger] document_fits(
                self@[i],
                i,
            ) by {
                if i < old(self)@.len() {
                    assert(document_fits(old(self)@[i], i));
                }
            }
        }
        Ok(())
    }

    /// The ledger calls that registering a document takes, in the order they
    /// must be made: mint the creator's shares of the new asset, record the
    /// content hash under the version key, then pass each co-author their
    /// shares. Fails with `CannotInsert` when the registry is full.
    pub fn create_document_calls(
        &self,
        caller: AccountId,
        ipfs_hash: &Vec<u8>,
        co_author: &Vec<(AccountId, u128)>,
    ) -> (r: Result<Vec<LedgerCall>, Error>)
        requires
            self.wf(),
        ensures
            self@.len() >= capacity() ==> r == Err::<Vec<LedgerCall>, Error>(Error::CannotInsert),
            self@.len() < capacity() ==> (r matches Ok(calls) && calls_view(calls@)
                == creation_calls(self@.len() as u32, caller, ipfs_hash@, co_author@)),
    {
        if self.docs.len() >= u32::MAX as usize {
            return Err(Error::CannotInsert);
        }
        let doc_id = self.docs.len() as u32;
        let mut calls: Vec<LedgerCall> = Vec::new();
        calls.push(LedgerCall::Mint { to: caller, asset_id: doc_id, amount: INITIAL_SHARES });
        calls.push(
            LedgerCall::SetAttribute {
                asset_id: doc_id,
                key: version_key_bytes(),
                value: ipfs_hash.clone(),
            },
        );
        let ghost spec_calls = creation_calls(doc_id, caller, ipfs_hash@, co_author@);
        let mut i: usize = 0;
        while i < co_author.len()
            invariant
                0 <= i <= co_author.len(),
                doc_id == self@.len(),
                spec_calls == creation_calls(doc_id, caller, ipfs_hash@, co_author@),
                calls.len() == i + 2,
                forall|j: int|
                    0 <= j < i + 2 ==> #[trigger] calls@[j]@ == spec_calls[j],
            decreases co_author.len() - i,
        {
            let (account, amount) = co_author[i];
            calls.push(
                LedgerCall::Transfer {
                    to: account,
                    asset_id: doc_id,
                    amount,
                    data: ipfs_hash.clone(),
                },
            );
            i = i + 1;
        }
        assert(calls_view(calls@) =~= spec_calls);
        Ok(calls)
    }

    /// The roster of a fresh document.
    fn build_roster(caller: AccountId, co_author: &Vec<(AccountId, u128)>) -> (r: Vec<PostOwner>)
        ensures
            r@ == roster(caller, co_author@),
    {
        let mut members: Vec<PostOwner> = Vec::new();
        members.push(PostOwner { user: caller, user_role: UserRole::Owner });
        let mut i: usize = 0;
        while i < co_author.len()
            invariant
                0 <= i <= co_author.len(),
                members@ == roster(caller, co_author@.take(i as int)),
            decreases co_author.len() - i,
        {
            let (account, _amount) = co_author[i];
            members.push(PostOwner { user: account, user_role: UserRole::CoAuthor });
            proof {
                assert(co_author@.take(i + 1) =~= co_author@.take(i as int).push(co_author@[i as int]));
                assert(members@ =~= roster(caller, co_author@.take(i + 1)));
            }
            i = i + 1;
        }
        assert(co_author@.take(co_author@.len() as int) =~= co_author@);
        members
    }

    /// Registers a document once the calls of `create_document_calls` have
    /// been made; `ledger_ok` says whether all of them succeeded. The new
    /// document takes the next id, `caller` as owner and first contributor,
    /// and the co-authors as members in the order given. On failure the
    /// registry is left as it was: `CannotInsert` when it is full,
    /// `TokenOperationFailed` when a ledger call failed.
    pub fn create_document(
        &mut self,
        caller: AccountId,
        title: Vec<u8>,
        ipfs_hash: Vec<u8>,
        co_author: Vec<(AccountId, u128)>,
        ledger_ok: bool,
    ) -> (r: Result<DocumentCreated, Error>)
        requires
            old(self).wf(),
        ensures
            final(self).wf(),
            old(self)@.len() >= capacity() ==> r == Err::<DocumentCreated, Error>(
                Error::CannotInsert,
            ) && final(self)@ == old(self)@,
            old(self)@.len() < capacity() && !ledger_ok ==> r == Err::<DocumentCreated, Error>(
                Error::TokenOperationFailed,
            ) && final(self)@ == old(self)@,
            old(self)@.len() < capacity() && ledger_ok ==> (r matches Ok(e) && e.doc_id
                == old(self)@.len() && e.title@ == title@ && e.hash@ == ipfs_hash@),
            old(self)@.len() < capacity() && ledger_ok ==> final(self)@ == old(self)@.push(
                new_document(old(self)@.len() as u32, caller, title@, ipfs_hash@, co_author@),
            ),
    {
        if self.docs.len() >= u32::MAX as usize {
            return Err(Error::CannotInsert);
        }
        if !ledger_ok {
            return Err(Error::TokenOperationFailed);
        }
        let doc_id = self.docs.len() as u32;
        let members = Self::build_roster(caller, &co_author);
        let doc = NftDocument {
            id: doc_id,
            owner: caller,
            title: title.clone(),
            members,
            versions: Version { contributor: caller, ipfs_hash: ipfs_hash.clone() },
        };
        assert(doc@ == new_document(doc_id, caller, title@, ipfs_hash@, co_author@));
        let added = self.add_nft(doc);
        assert(added is Ok);
        Ok(DocumentCreated { doc_id, title, hash: ipfs_hash })
    }

    /// The ledger calls that replacing the current version of `doc_id` takes:
    /// record the new content hash under the version key. Fails with
    /// `TokenNotFound` when no document has that id.
    pub fn create_version_document_calls(&self, doc_id: u32, ipfs_hash: &Vec<u8>) -> (r: Result<
        Vec<LedgerCall>,
        Error,
    >)
        requires
            self.wf(),
        ensures
            doc_id >= self@.len() ==> r == Err::<Vec<LedgerCall>, Error>(Error::TokenNotFound),
            doc_id < self@.len() ==> (r matches Ok(calls) && calls_view(calls@) == version_calls(
                doc_id,
                ipfs_hash@,
            )),
    {
        if doc_id as usize >= self.docs.len() {
            return Err(Error::TokenNotFound);
        }
        let mut calls: Vec<LedgerCall> = Vec::new();
        calls.push(
            LedgerCall::SetAttribute {
                asset_id: doc_id,
                key: version_key_bytes(),
                value: ipfs_hash.clone(),
            },
        );
        assert(calls_view(calls@) =~= version_calls(doc_id, ipfs_hash@));
        Ok(calls)
    }

    /// Replaces the current version of document `doc_id` with one by `caller`
    /// once the calls of `create_version_document_calls` have been made;
    /// `ledger_ok` says whether they succeeded. The superseded version is not
    /// kept. On failure the registry is left as it was: `TokenNotFound` when no
    /// document has that id, `TokenOperationFailed` when a ledger call failed.
    pub fn create_version_document(
        &mut self,
        caller: AccountId,
        doc_id: u32,
        ipfs_hash: Vec<u8>,
        ledger_ok: bool,
    ) -> (r: Result<VersionCreated, Error>)
        requires
            old(self).wf(),
        ensures
            final(self).wf(),
            doc_id >= old(self)@.len() ==> r == Err::<VersionCreated, Error>(Error::TokenNotFound)
                && final(self)@ == old(self)@,
            doc_id < old(self)@.len() && !ledger_ok ==> r == Err::<VersionCreated, Error>(
                Error::TokenOperationFailed,
            ) && final(self)@ == old(self)@,
            doc_id < old(self)@.len() && ledger_ok ==> (r matches Ok(e) && e.contributor == caller
                && e.doc_id == doc_id && e.hash@ == ipfs_hash@),
            doc_id < old(self)@.len() && ledger_ok ==> final(self)@ == with_version(
                old(self)@,
                doc_id as int,
                caller,
                ipfs_hash@,
            ),
    {
        if doc_id as usize >= self.docs.len() {
            return Err(Error::TokenNotFound);
        }
        if !ledger_ok {
            return Err(Error::TokenOperationFailed);
        }
        let hash = ipfs_hash.clone();
        self.docs[doc_id as usize].versions = Version { contributor: caller, ipfs_hash: hash };
        proof {
            let expected = with_version(old(self)@, doc_id as int, caller, ipfs_hash@);
            assert(self@ =~= expected);
            assert forall|i: int| 0 <= i < self@.len() implies #[trigger] document_fits(
                self@[i],
                i,
            ) by {
                assert(document_fits(old(self)@[i], i));
            }
        }
        Ok(VersionCreated { contributor: caller, doc_id, hash: ipfs_hash })
    }

    /// A copy of every document, in id order.
    pub fn get_nfts(&self) -> (r: Vec<NftDocument>)
        ensures
            r@.map_values(|d: NftDocument| d@) == self@,
    {
        let mut r: Vec<NftDocument> = Vec::new();
        let mut i: usize = 0;
        while i < self.docs.len()
            invariant
                0 <= i <= self.docs.len(),
                r.len() == i,
                forall|j: int| 0 <= j < i ==> #[trigger] r@[j]@ == self@[j],
            decreases self.docs.len() - i,
        {
            r.push(self.docs[i].clone());
            i = i + 1;
        }
        assert(r@.map_values(|d: NftDocument| d@) =~= self@);
        r
    }

    /// The document with id `doc_id`, or `None` when there is none.
    pub fn get_document_by_id(&self, doc_id: u32) -> (r: Option<NftDocument>)
        ensures
            doc_id >= self@.len() ==> r is None,
            doc_id < self@.len() ==> (r matches Some(d) && d@ == self@[doc_id as int]),
    {
        if doc_id as usize >= self.docs.len() {
            return None;
        }
        Some(self.docs[doc_id as usize].clone())
    }

    /// The current version of document `doc_id`; `TokenNotFound` when there
    /// is no such document.
    pub fn get_version(&self, doc_id: u32) -> (r: Result<Version, Error>)
        ensures
            doc_id >= self@.len() ==> r == Err::<Version, Error>(Error::TokenNotFound),
            doc_id < self@.len() ==> (r matches Ok(v) && v@ == self@[doc_id as int].version),
    {
        if doc_id as usize >= self.docs.len() {
            return Err(Error::TokenNotFound);
        }
        Ok(self.docs[doc_id as usize].versions.clone())
    }

    /// The content hash of the current version of document `doc_id`;
    /// `TokenNotFound` when there is no such document.
    pub fn get_ipfs_hash_version(&self, doc_id: u32) -> (r: Result<Vec<u8>, Error>)
        ensures
            doc_id >= self@.len() ==> r == Err::<Vec<u8>, Error>(Error::TokenNotFound),
            doc_id < self@.len() ==> (r matches Ok(h) && h@ == self@[doc_id as int].version.ipfs_hash),
    {
        if doc_id as usize >= self.docs.len() {
            return Err(Error::TokenNotFound);
        }
        Ok(self.docs[doc_id as usize].versions.ipfs_hash.clone())
    }

    /// The roster of document `doc_id`, in join order; `TokenNotFound` when
    /// there is no such document.
    pub fn get_contributors(&self, doc_id: u32) -> (r: Result<Vec<PostOwner>, Error>)
        ensures
            doc_id >= self@.len() ==> r == Err::<Vec<PostOwner>, Error>(Error::TokenNotFound),
            doc_id < self@.len() ==> (r matches Ok(m) && m@ == self@[doc_id as int].members),
    {
        if doc_id as usize >= self.docs.len() {
            return Err(Error::TokenNotFound);
        }
        let members = self.docs[doc_id as usize].members.clone();
        assert(members@ =~= self@[doc_id as int].members);
        Ok(members)
    }

    /// The ledger query for the total supply of `token_id` (of all assets
    /// when `None`).
    pub fn get_total_supply_nft_doc(&self, token_id: Option<u32>) -> (r: LedgerCall)
        ensures
            r@ == (LedgerCallView::TotalSupply { asset_id: token_id }),
    {
        LedgerCall::TotalSupply { asset_id: token_id }
    }

    /// The ledger query for the caller's balance of `token_id`.
    pub fn get_balance_of_nft_doc(&self, caller: AccountId, token_id: Option<u32>) -> (r: LedgerCall)
        ensures
            r@ == (LedgerCallView::BalanceOf { owner: caller, asset_id: token_id }),
    {
        LedgerCall::BalanceOf { owner: caller, asset_id: token_id }
    }

    /// The ledger query for what the caller has allowed `operator` to move
    /// of `token_id`.
    pub fn get_allowance_nft_doc(
        &self,
        caller: AccountId,
        operator: AccountId,
        token_id: Option<u32>,
    ) -> (r: LedgerCall)
        ensures
            r@ == (LedgerCallView::Allowance { owner: caller, operator, asset_id: token_id }),
    {
        LedgerCall::Allowance { owner: caller, operator, asset_id: token_id }
    }

    /// The ledger call that lets `operator` move `value` units of `token_id`
    /// on the caller's behalf.
    pub fn approve_nft_doc(&self, operator: AccountId, token_id: Option<u32>, value: u128) -> (r:
        LedgerCall)
        ensures
            r@ == (LedgerCallView::Approve { operator, asset_id: token_id, amount: value }),
    {
        LedgerCall::Approve { operator, asset_id: token_id, amount: value }
    }

    /// The ledger query for the attribute `version_id` of `token_id`.
    pub fn get_attribute_version_nft_doc(&self, token_id: u32, version_id: Vec<u8>) -> (r:
        LedgerCall)
        ensures
            r@ == (LedgerCallView::GetAttribute { asset_id: token_id, key: version_id@ }),
    {
        LedgerCall::GetAttribute { asset_id: token_id, key: version_id }
    }

    /// The ledger call that moves `value` units of `token_id` to `to`, with
    /// `data` as an opaque payload.
    pub fn transfer_nft_doc(&self, to: AccountId, token_id: u32, value: u128, data: Vec<u8>) -> (r:
        LedgerCall)
        ensures
            r@ == (LedgerCallView::Transfer { to, asset_id: token_id, amount: value, data: data@ }),
    {
        LedgerCall::Transfer { to, asset_id: token_id, amount: value, data }
    }

    /// Settlement of a vote on a document. No payout rule is defined, so it
    /// changes nothing and succeeds.
    pub fn reward_native_token(&self, _status: bool, _voter: Vec<(AccountId, bool)>, _doc_id: u32) -> (r:
        Result<(), Error>)
        ensures
            r is Ok,
    {
        Ok(())
    }
}
} // verus!
