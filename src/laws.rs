use vstd::prelude::*;
use crate::ledger::{creation_calls, version_calls, version_key, LedgerCallView};
use crate::registry::{capacity, docs_wf, document_fits, new_document, with_version};
use crate::types::{AccountId, DocumentView, VersionView};

verus! {

/// Registering a document and replacing a version both keep every document's
/// id equal to its position: the new document takes the position it is given
/// as id, and no earlier document moves or changes id.
pub proof fn lemma_id_is_position(
    docs: Seq<DocumentView>,
    caller: AccountId,
    title: Seq<u8>,
    hash: Seq<u8>,
    co_authors: Seq<(AccountId, u128)>,
    doc_id: int,
)
    requires
        docs_wf(docs),
        docs.len() < capacity(),
        0 <= doc_id < docs.len(),
    ensures
        ({
            let grown = docs.push(
                new_document(docs.len() as u32, caller, title, hash, co_authors),
            );
            &&& docs_wf(grown)
            &&& forall|i: int| 0 <= i < grown.len() ==> #[trigger] grown[i].id == i
        }),
        ({
            let updated = with_version(docs, doc_id, caller, hash);
            &&& docs_wf(updated)
            &&& forall|i: int| 0 <= i < updated.len() ==> #[trigger] updated[i].id == i
        }),
{
    let grown = docs.push(new_document(docs.len() as u32, caller, title, hash, co_authors));
    assert forall|i: int| 0 <= i < grown.len() implies #[trigger] document_fits(grown[i], i) by {
        if i < docs.len() {
            assert(document_fits(docs[i], i));
        }
    }
    assert forall|i: int| 0 <= i < grown.len() implies #[trigger] grown[i].id == i by {
        assert(document_fits(grown[i], i));
    }
    let updated = with_version(docs, doc_id, caller, hash);
    assert forall|i: int| 0 <= i < updated.len() implies #[trigger] document_fits(
        updated[i],
        i,
    ) by {
        assert(document_fits(docs[i], i));
    }
    assert forall|i: int| 0 <= i < updated.len() implies #[trigger] updated[i].id == i by {
        assert(document_fits(updated[i], i));
    }
}

/// The document list after the version writes `writes` on document `doc_id`,
/// made in order, by `with_version`.
pub open spec fn after_writes(
    docs: Seq<DocumentView>,
    doc_id: int,
    writes: Seq<VersionView>,
) -> Seq<DocumentView>
    decreases writes.len(),
{
    if writes.len() == 0 {
        docs
    } else {
        let last = writes.last();
        with_version(after_writes(docs, doc_id, writes.drop_last()), doc_id, last.contributor, last.ipfs_hash)
    }
}

/// After any non-empty run of version writes on one document, its current
/// version is the last write, and all else in the registry is as before: the
/// earlier writes leave no trace.
pub proof fn lemma_last_write_wins(docs: Seq<DocumentView>, doc_id: int, writes: Seq<VersionView>)
    requires
        0 <= doc_id < docs.len(),
        writes.len() > 0,
    ensures
        after_writes(docs, doc_id, writes) == docs.update(
            doc_id,
            DocumentView { version: writes.last(), ..docs[doc_id] },
        ),
    decreases writes.len(),
{
    let rest = writes.drop_last();
    let last = writes.last();
    if rest.len() > 0 {
        lemma_last_write_wins(docs, doc_id, rest);
    } else {
        assert(after_writes(docs, doc_id, rest) == docs);
    }
    assert(last == VersionView { contributor: last.contributor, ipfs_hash: last.ipfs_hash });
    let result = after_writes(docs, doc_id, writes);
    let expected = docs.update(doc_id, DocumentView { version: writes.last(), ..docs[doc_id] });
    assert(result =~= expected);
}

/// The content hash that a version update records in the ledger is the hash
/// of the document's new current version; so is the one recorded at creation.
pub proof fn lemma_attribute_matches_version(
    docs: Seq<DocumentView>,
    doc_id: u32,
    caller: AccountId,
    title: Seq<u8>,
    hash: Seq<u8>,
    co_authors: Seq<(AccountId, u128)>,
)
    requires
        doc_id < docs.len(),
    ensures
        version_calls(doc_id, hash) == seq![
            LedgerCallView::SetAttribute {
                asset_id: doc_id,
                key: version_key(),
                value: with_version(docs, doc_id as int, caller, hash)[doc_id as int].version.ipfs_hash,
            },
        ],
        creation_calls(docs.len() as u32, caller, hash, co_authors)[1] == (
        LedgerCallView::SetAttribute {
            asset_id: docs.len() as u32,
            key: version_key(),
            value: new_document(docs.len() as u32, caller, title, hash, co_authors).version.ipfs_hash,
        }),
{
}

/// Registering a document adds exactly one to the count; replacing a version
/// leaves it unchanged.
pub proof fn lemma_count_steps(
    docs: Seq<DocumentView>,
    caller: AccountId,
    title: Seq<u8>,
    hash: Seq<u8>,
    co_authors: Seq<(AccountId, u128)>,
    doc_id: int,
)
    requires
        0 <= doc_id < docs.len(),
    ensures
        docs.push(new_document(docs.len() as u32, caller, title, hash, co_authors)).len()
            == docs.len() + 1,
        with_version(docs, doc_id, caller, hash).len() == docs.len(),
{
}

} // verus!
