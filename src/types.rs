use vstd::prelude::*;

verus! {

/// A 32-byte account identifier, as supplied by the execution environment.
#[derive(Clone, Copy, Debug, PartialEq, Eq)]
pub struct AccountId(pub [u8; 32]);

impl AccountId {
    /// Whether two accounts are the same, byte for byte.
    pub fn same(&self, other: &AccountId) -> (r: bool)
        ensures
            r == (*self == *other),
    {
        let mut i: usize = 0;
        while i < 32
            invariant
                0 <= i <= 32,
                forall|j: int| 0 <= j < i ==> self.0[j] == other.0[j],
            decreases 32 - i,
        {
            if self.0[i] != other.0[i] {
                return false;
            }
            i = i + 1;
        }
        proof {
            broadcast use vstd::array::group_array_axioms;

            assert(self.0 =~= other.0);
        }
        true
    }
}

/// Failures of registry operations.
#[derive(Clone, Copy, Debug, PartialEq, Eq, Structural)]
pub enum Error {
    NotOwner,
    NotApproved,
    TokenExists,
    TokenNotFound,
    CannotInsert,
    CannotFetchValue,
    NotAllowed,
    /// A call into the multi-asset ledger that the operation needed failed.
    TokenOperationFailed,
}

/// The descriptive role of a member of a document.
#[derive(Clone, Copy, Debug, PartialEq, Eq, Structural)]
pub enum UserRole {
    Developer,
    CoAuthor,
    Partner,
    Owner,
}

/// A membership record: an account and its role.
#[derive(Clone, Copy, Debug, PartialEq, Eq)]
pub struct PostOwner {
    pub user: AccountId,
    pub user_role: UserRole,
}

/// The current version of a document: who wrote it and where the content lives.
#[derive(Debug, PartialEq, Eq)]
pub struct Version {
    pub contributor: AccountId,
    pub ipfs_hash: Vec<u8>,
}

/// A version as a mathematical value.
pub struct VersionView {
    pub contributor: AccountId,
    pub ipfs_hash: Seq<u8>,
}

impl View for Version {
    type V = VersionView;

    open spec fn view(&self) -> VersionView {
        VersionView { contributor: self.contributor, ipfs_hash: self.ipfs_hash@ }
    }
}

impl Clone for Version {
    fn clone(&self) -> (r: Self)
        ensures
            r@ == self@,
    {
        Version { contributor: self.contributor, ipfs_hash: self.ipfs_hash.clone() }
    }
}

/// One registered document.
#[derive(Debug, PartialEq, Eq)]
pub struct NftDocument {
    pub id: u32,
    pub owner: AccountId,
    pub title: Vec<u8>,
    pub members: Vec<PostOwner>,
    pub versions: Version,
}

/// A document as a mathematical value.
pub struct DocumentView {
    pub id: u32,
    pub owner: AccountId,
    pub title: Seq<u8>,
    pub members: Seq<PostOwner>,
    pub version: VersionView,
}

impl View for NftDocument {
    type V = DocumentView;

    open spec fn view(&self) -> DocumentView {
        DocumentView {
            id: self.id,
            owner: self.owner,
            title: self.title@,
            members: self.members@,
            version: self.versions@,
        }
    }
}

impl Clone for NftDocument {
    fn clone(&self) -> (r: Self)
        ensures
            r@ == self@,
    {
        let members = self.members.clone();
        assert(members@ =~= self.members@);
        NftDocument {
            id: self.id,
            owner: self.owner,
            title: self.title.clone(),
            members,
            versions: self.versions.clone(),
        }
    }
}

/// Emitted when a document is registered; the asset id equals the document id.
#[derive(Debug, PartialEq, Eq)]
pub struct DocumentCreated {
    pub doc_id: u32,
    pub title: Vec<u8>,
    pub hash: Vec<u8>,
}

/// An account joining a document with a share balance.
#[derive(Clone, Copy, Debug, PartialEq, Eq)]
pub struct Joined {
    pub account: AccountId,
    pub doc_id: u32,
    pub balance: u128,
}

/// Emitted when a document's current version is replaced.
#[derive(Debug, PartialEq, Eq)]
pub struct VersionCreated {
    pub contributor: AccountId,
    pub doc_id: u32,
    pub hash: Vec<u8>,
}

} // verus!
