//! The documents of a node, held in memory.

use crate::storage::models::{entry_id, put, Doc, DocView, EntryView};
use crate::storage::text::{first_index, join, lemma_first_index, lemma_first_index_is, same_text};
use vstd::prelude::*;

verus! {

/// The documents of a node: at most one for each identifier.
#[derive(Debug)]
pub struct Docs {
    pub(crate) documents: Vec<Doc>,
}

/// The views of a list of documents.
pub open spec fn doc_views(docs: Seq<Doc>) -> Seq<DocView> {
    docs.map_values(|d: Doc| d@)
}

/// The identifiers of a list of documents.
pub open spec fn doc_ids(docs: Seq<DocView>) -> Seq<Seq<char>> {
    docs.map_values(|d: DocView| d.id)
}

/// The index of the document with the identifier, or the number of
/// documents if there is none.
pub open spec fn doc_position(docs: Seq<DocView>, id: Seq<char>) -> int {
    first_index(doc_ids(docs), id)
}

/// The documents after `d` was stored: `d` stands where a document of its
/// identifier stood, or at the end if none did.
pub open spec fn put_doc(docs: Seq<DocView>, d: DocView) -> Seq<DocView> {
    let p = doc_position(docs, d.id);
    if p < docs.len() {
        docs.update(p, d)
    } else {
        docs.push(d)
    }
}

/// The documents after content was stored in the document `id`; nothing
/// changes where there is no such document.
pub open spec fn put_entry(docs: Seq<DocView>, id: Seq<char>, e: EntryView) -> Seq<DocView> {
    let p = doc_position(docs, id);
    if p < docs.len() {
        docs.update(p, DocView { id: docs[p].id, entries: put(docs[p].entries, e) })
    } else {
        docs
    }
}

/// The message for a document that is not there.
pub open spec fn not_found_message(id: Seq<char>) -> Seq<char> {
    "Document not found: "@ + id
}

/// `Uuid::new_v4` and the `Display` of `Uuid`: a random identifier in its
/// hyphenated form, which is 36 characters long.
#[verifier::external_body]
pub(crate) fn fresh_id() -> (r: String)
    ensures
        r@.len() == 36,
{
    uuid::Uuid::new_v4().to_string()
}

impl View for Docs {
    type V = Seq<DocView>;

    closed spec fn view(&self) -> Seq<DocView> {
        doc_views(self.documents@)
    }
}

impl Docs {
    #[verifier::type_invariant]
    spec fn well_formed(&self) -> bool {
        doc_ids(doc_views(self.documents@)).no_duplicates()
    }

    /// A node without documents.
    pub fn new() -> (r: Self)
        ensures
            r@ == Seq::<DocView>::empty(),
    {
        let r = Docs { documents: Vec::new() };
        assert(doc_views(r.documents@) =~= Seq::<DocView>::empty());
        r
    }

    /// The index of the document with the identifier, or the number of
    /// documents if there is none.
    fn find(&self, doc_id: &str) -> (r: usize)
        ensures
            r == doc_position(self@, doc_id@),
            r <= self.documents.len(),
            self.documents.len() == self@.len(),
    {
        let ghost ids = doc_ids(doc_views(self.documents@));
        let mut i: usize = 0;
        while i < self.documents.len()
            invariant
                i <= self.documents.len(),
                ids == doc_ids(doc_views(self.documents@)),
                forall|k: int| 0 <= k < i ==> #[trigger] ids[k] != doc_id@,
            decreases self.documents.len() - i,
        {
            if same_text(self.documents[i].id(), doc_id) {
                proof {
                    lemma_first_index_is(ids, doc_id@, i as int);
                }
                return i;
            }
            i += 1;
        }
        proof {
            lemma_first_index_is(ids, doc_id@, i as int);
        }
        i
    }

    /// Whether the node has a document with the identifier.
    pub fn contains(&self, doc_id: &str) -> (r: bool)
        ensures
            r == (doc_position(self@, doc_id@) < self@.len()),
    {
        self.find(doc_id) < self.documents.len()
    }

    /// A copy of the document with the identifier; an error that names the
    /// identifier if there is none.
    pub fn get(&self, doc_id: &str) -> (r: Result<Doc, String>)
        ensures
            match r {
                Ok(d) => doc_position(self@, doc_id@) < self@.len() && d@ == self@[doc_position(
                    self@,
                    doc_id@,
                )] && d@.id == doc_id@,
                Err(m) => doc_position(self@, doc_id@) == self@.len() && m@ == not_found_message(
                    doc_id@,
                ),
            },
    {
        let at = self.find(doc_id);
        proof {
            lemma_first_index(doc_ids(self@), doc_id@);
        }
        if at < self.documents.len() {
            Ok(self.documents[at].clone())
        } else {
            Err(join("Document not found: ", doc_id))
        }
    }

    /// Stores a document in place of the one with its identifier, or as a
    /// new one.
    fn store(&mut self, doc: Doc)
        ensures
            final(self)@ == put_doc(old(self)@, doc@),
    {
        proof {
            use_type_invariant(&*self);
        }
        let at = self.find(doc.id());
        let ghost before = doc_views(self.documents@);
        let ghost d = doc@;
        let mut documents: Vec<Doc> = Vec::new();
        std::mem::swap(&mut documents, &mut self.documents);
        proof {
            lemma_first_index(doc_ids(before), d.id);
            assert(doc_ids(doc_views(self.documents@)) =~= Seq::<Seq<char>>::empty());
        }
        if at < documents.len() {
            documents.remove(at);
            documents.insert(at, doc);
        } else {
            documents.push(doc);
        }
        proof {
            let after = doc_views(documents@);
            assert(after =~= put_doc(before, d));
            lemma_put_doc_distinct(before, d);
        }
        self.documents = documents;
    }

    /// Creates an empty document under a random identifier and answers a
    /// copy of it. A document that had that identifier is replaced.
    pub fn create(&mut self) -> (r: Result<Doc, String>)
        ensures
            r matches Ok(d) && d@.entries == Seq::<EntryView>::empty() && d@.id.len() == 36
                && final(self)@ == put_doc(old(self)@, d@),
    {
        let doc_id = fresh_id();
        let doc = Doc::new(doc_id.as_str());
        let copy = doc.clone();
        self.store(doc);
        Ok(copy)
    }

    /// Makes sure that a document with the identifier exists: an empty one
    /// is added at the end where none does.
    pub fn ensure(&mut self, doc_id: &str)
        ensures
            final(self)@ == if doc_position(old(self)@, doc_id@) < old(self)@.len() {
                old(self)@
            } else {
                old(self)@.push(DocView { id: doc_id@, entries: Seq::empty() })
            },
    {
        if !self.contains(doc_id) {
            self.store(Doc::new(doc_id));
        }
    }

    /// Stores content under a key of a namespace in the document with the
    /// identifier; an error that names the identifier if there is none.
    pub fn set_bytes(
        &mut self,
        doc_id: &str,
        namespace: &str,
        key: &str,
        content: &[u8],
    ) -> (r: Result<(), String>)
        ensures
            match r {
                Ok(_) => doc_position(old(self)@, doc_id@) < old(self)@.len(),
                Err(m) => doc_position(old(self)@, doc_id@) == old(self)@.len() && m@
                    == not_found_message(doc_id@),
            },
            final(self)@ == put_entry(
                old(self)@,
                doc_id@,
                EntryView {
                    id: entry_id(namespace@, key@),
                    namespace: namespace@,
                    key: key@,
                    content: content@,
                },
            ),
    {
        proof {
            use_type_invariant(&*self);
        }
        let at = self.find(doc_id);
        proof {
            lemma_first_index(doc_ids(self@), doc_id@);
        }
        if at >= self.documents.len() {
            return Err(join("Document not found: ", doc_id));
        }
        let ghost before = doc_views(self.documents@);
        let mut documents: Vec<Doc> = Vec::new();
        std::mem::swap(&mut documents, &mut self.documents);
        proof {
            assert(doc_ids(doc_views(self.documents@)) =~= Seq::<Seq<char>>::empty());
        }
        let mut doc = documents.remove(at);
        let _ = doc.set_bytes(namespace, key, content);
        documents.insert(at, doc);
        proof {
            let after = doc_views(documents@);
            let e = EntryView {
                id: entry_id(namespace@, key@),
                namespace: namespace@,
                key: key@,
                content: content@,
            };
            assert(after =~= put_entry(before, doc_id@, e));
            assert(doc_ids(after) =~= doc_ids(before));
        }
        self.documents = documents;
        Ok(())
    }

    /// Synchronises a document with a peer. Documents held in memory have
    /// no peers to reach, so there is nothing to do and nothing to fail.
    pub fn sync_doc(&self, doc: &Doc, peer_id: &str) -> (r: Result<(), String>)
        ensures
            r is Ok,
    {
        Ok(())
    }
}

/// Storing a document keeps the identifiers distinct.
pub proof fn lemma_put_doc_distinct(docs: Seq<DocView>, d: DocView)
    requires
        doc_ids(docs).no_duplicates(),
    ensures
        doc_ids(put_doc(docs, d)).no_duplicates(),
{
    let ids = doc_ids(docs);
    lemma_first_index(ids, d.id);
    let p = doc_position(docs, d.id);
    let after = doc_ids(put_doc(docs, d));
    if p < docs.len() {
        assert(after =~= ids);
    } else {
        assert(after =~= ids.push(d.id));
        assert forall|i: int, j: int| 0 <= i < after.len() && 0 <= j < after.len() && i
            != j implies after[i] != after[j] by {
            if i < ids.len() && j < ids.len() {
            } else if i < ids.len() {
                assert(ids[i] != d.id);
            } else {
                assert(ids[j] != d.id);
            }
        }
    }
}

} // verus!
