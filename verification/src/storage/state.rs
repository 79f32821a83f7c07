//! The namespace registry: which namespace of the store holds which
//! collection.
//!
//! The binding of a collection is kept in a record of the metadata
//! namespace, under the key "<collection>_namespace_id", so that it
//! survives a restart. Within a process a collection is bound once: whoever
//! asks first resolves it, whoever asks meanwhile waits, and whoever asks
//! later gets the same namespace.

use crate::storage::assoc::{
    keys, lemma_with_value_distinct, lemma_with_value_other, lemma_with_value_same, lemma_without,
    value_at, with_value, without,
};
use crate::storage::error::StorageError;
use crate::storage::hash::{blake3_digest, digest, HASH_LEN};
use crate::storage::models::{bytes_view, copy_bytes};
use crate::storage::replica::{after_write, Replica};
use crate::storage::repository::records::{fetch_record, fetched, put_record, Fetched};
use crate::storage::text::{
    first_index, join, lemma_first_index, lemma_first_index_is, same_bytes, same_text,
};
use vstd::prelude::*;
use vstd::string::*;

verus! {

/// The identifier of a namespace: 32 bytes.
#[derive(Debug, PartialEq, Eq)]
pub struct NamespaceId {
    bytes: Vec<u8>,
}

impl View for NamespaceId {
    type V = Seq<u8>;

    closed spec fn view(&self) -> Seq<u8> {
        self.bytes@
    }
}

impl NamespaceId {
    #[verifier::type_invariant]
    spec fn well_formed(&self) -> bool {
        self.bytes@.len() == HASH_LEN
    }

    /// The identifier with the given bytes, if they are 32.
    pub fn from_bytes(bytes: &[u8]) -> (r: Option<Self>)
        ensures
            match r {
                Some(id) => bytes@.len() == HASH_LEN && id@ == bytes@,
                None => bytes@.len() != HASH_LEN,
            },
    {
        if bytes.len() == HASH_LEN {
            Some(NamespaceId { bytes: copy_bytes(bytes) })
        } else {
            None
        }
    }

    /// The identifier that a name stands for: the BLAKE3 hash of the name.
    pub fn derived_from(name: &str) -> (r: Self)
        ensures
            r@ == blake3_digest(name.spec_bytes()),
    {
        NamespaceId { bytes: digest(name.as_bytes()) }
    }

    /// The 32 bytes of the identifier.
    pub fn as_bytes(&self) -> (r: &[u8])
        ensures
            r@ == self@,
            r@.len() == HASH_LEN,
    {
        proof {
            use_type_invariant(self);
        }
        self.bytes.as_slice()
    }

    /// Whether two identifiers are the same.
    pub fn same(&self, other: &NamespaceId) -> (r: bool)
        ensures
            r == (self@ == other@),
    {
        same_bytes(self.bytes.as_slice(), other.bytes.as_slice())
    }
}

impl Clone for NamespaceId {
    fn clone(&self) -> (r: NamespaceId)
        ensures
            r@ == self@,
    {
        proof {
            use_type_invariant(self);
        }
        NamespaceId { bytes: copy_bytes(self.bytes.as_slice()) }
    }
}

/// The name from which the identifier of the metadata namespace is made.
pub open spec fn metadata_name() -> Seq<char> {
    "kukuri-app-metadata-v1"@
}

/// The identifier of the metadata namespace, where the bindings are kept.
pub fn metadata_namespace_id() -> (r: NamespaceId)
    ensures
        r@ == blake3_digest(vstd::utf8::encode_utf8(metadata_name())),
{
    NamespaceId::derived_from("kukuri-app-metadata-v1")
}

/// The key of the record that binds a collection.
pub open spec fn spec_registry_key(collection: Seq<char>) -> Seq<u8> {
    vstd::utf8::encode_utf8(collection + "_namespace_id"@)
}

/// The key of the record that binds a collection.
pub fn registry_key(collection: &str) -> (r: Vec<u8>)
    ensures
        r@ == spec_registry_key(collection@),
{
    let name = join(collection, "_namespace_id");
    name.as_str().as_bytes_vec()
}

/// The identifier that a registry record holds: its content if that has 32
/// bytes. A record of any other length counts as no record.
pub open spec fn saved_id(content: Option<Seq<u8>>) -> Option<Seq<u8>> {
    match content {
        Some(bytes) => if bytes.len() == HASH_LEN {
            Some(bytes)
        } else {
            None
        },
        None => None,
    }
}

/// The view of an optional identifier.
pub open spec fn id_view(id: Option<NamespaceId>) -> Option<Seq<u8>> {
    match id {
        Some(id) => Some(id@),
        None => None,
    }
}

/// The identifier that a registry record holds, if it holds one. A record
/// that is missing, or whose content does not have 32 bytes, gives none:
/// a damaged record is no error.
pub fn read_saved_id(content: &Option<Vec<u8>>) -> (r: Option<NamespaceId>)
    ensures
        id_view(r) == saved_id(bytes_view(*content)),
{
    match content {
        Some(bytes) => NamespaceId::from_bytes(bytes.as_slice()),
        None => None,
    }
}

/// The bindings that were found saved, one for each collection.
#[derive(Debug, PartialEq, Eq)]
pub struct NamespaceStorage {
    pub user_namespace_id: Option<NamespaceId>,
    pub post_namespace_id: Option<NamespaceId>,
    pub settings_namespace_id: Option<NamespaceId>,
}

/// Reads the saved bindings from the contents of the three registry
/// records, each of which may be missing.
pub fn load_namespace_ids(
    user: &Option<Vec<u8>>,
    post: &Option<Vec<u8>>,
    settings: &Option<Vec<u8>>,
) -> (r: NamespaceStorage)
    ensures
        id_view(r.user_namespace_id) == saved_id(bytes_view(*user)),
        id_view(r.post_namespace_id) == saved_id(bytes_view(*post)),
        id_view(r.settings_namespace_id) == saved_id(bytes_view(*settings)),
{
    NamespaceStorage {
        user_namespace_id: read_saved_id(user),
        post_namespace_id: read_saved_id(post),
        settings_namespace_id: read_saved_id(settings),
    }
}

/// How the namespace of a collection is obtained.
#[derive(Debug, PartialEq, Eq)]
pub enum OpenPlan {
    /// Open this namespace; create one, and save its binding, if that
    /// fails.
    Open(NamespaceId),
    /// Create a namespace and save its binding.
    Create,
}

/// How the namespace of a collection is obtained, given its saved binding.
pub fn plan_for(saved: Option<NamespaceId>) -> (r: OpenPlan)
    ensures
        match saved {
            Some(id) => r == OpenPlan::Open(id),
            None => r is Create,
        },
{
    match saved {
        Some(id) => OpenPlan::Open(id),
        None => OpenPlan::Create,
    }
}

/// How the namespaces of the three collections are obtained.
#[derive(Debug, PartialEq, Eq)]
pub struct DocumentPlans {
    pub user: OpenPlan,
    pub post: OpenPlan,
    pub settings: OpenPlan,
}

/// How the namespaces of the three collections are obtained, given what
/// was found saved: a saved namespace is opened, any other is created.
pub fn create_or_load_documents(storage: NamespaceStorage) -> (r: DocumentPlans)
    ensures
        r.user == (match storage.user_namespace_id {
            Some(id) => OpenPlan::Open(id),
            None => OpenPlan::Create,
        }),
        r.post == (match storage.post_namespace_id {
            Some(id) => OpenPlan::Open(id),
            None => OpenPlan::Create,
        }),
        r.settings == (match storage.settings_namespace_id {
            Some(id) => OpenPlan::Open(id),
            None => OpenPlan::Create,
        }),
{
    DocumentPlans {
        user: plan_for(storage.user_namespace_id),
        post: plan_for(storage.post_namespace_id),
        settings: plan_for(storage.settings_namespace_id),
    }
}

/// A record of the metadata namespace.
#[derive(Debug, PartialEq, Eq)]
pub struct RegistryRecord {
    pub key: Vec<u8>,
    pub content: Vec<u8>,
}

/// The record that binds a collection to a namespace: the identifier of
/// the namespace under the key of the collection.
pub fn save_namespace_id(doc_type: &str, namespace_id: &NamespaceId) -> (r: RegistryRecord)
    ensures
        r.key@ == spec_registry_key(doc_type@),
        r.content@ == namespace_id@,
        saved_id(Some(r.content@)) == Some(namespace_id@),
{
    RegistryRecord { key: registry_key(doc_type), content: copy_bytes(namespace_id.as_bytes()) }
}

/// Where the resolution of one collection stands.
#[derive(Debug, PartialEq, Eq)]
pub enum ResolveState {
    /// The registry record is being read.
    Loading,
    /// The saved namespace is being opened.
    Opening(NamespaceId),
    /// A namespace is being created.
    Creating,
    /// The binding of the created namespace is being saved.
    Saving(NamespaceId),
    /// The collection is resolved to this namespace.
    Done(NamespaceId),
    /// The resolution failed.
    Failed,
}

/// What the store answered.
#[derive(Debug, PartialEq, Eq)]
pub enum ResolveEvent {
    /// The content of the registry record, if there is a record whose
    /// content is at hand.
    Loaded(Option<Vec<u8>>),
    /// Whether the namespace could be opened.
    Opened(bool),
    /// The namespace that was created, or why none was.
    Created(Result<NamespaceId, String>),
    /// Whether the binding was saved, or why not.
    Saved(Result<(), String>),
}

/// What to ask of the store next.
#[derive(Debug, PartialEq, Eq)]
pub enum ResolveAction {
    /// Read the registry record under this key.
    Load { key: Vec<u8> },
    Open(NamespaceId),
    Create,
    /// Write this record to the metadata namespace.
    Save(RegistryRecord),
    /// The collection is resolved: bind it.
    Finish(NamespaceId),
    Fail(StorageError),
    /// The answer fits no question that was asked: do nothing.
    Ignore,
}

/// Begins the resolution of a collection: the registry record is read
/// first.
pub fn start_resolution(collection: &str) -> (r: (ResolveState, ResolveAction))
    ensures
        r.0 is Loading,
        r.1 matches ResolveAction::Load { key } && key@ == spec_registry_key(collection@),
{
    (ResolveState::Loading, ResolveAction::Load { key: registry_key(collection) })
}

/// The next state and the next question, given a state and an answer.
///
/// A saved namespace is opened, and used if it opens. Where nothing usable
/// is saved, or the saved namespace does not open, a namespace is created
/// and its binding saved. Creating and saving can fail; reading and
/// opening cannot, they only lead to creating.
pub fn resolve_step(
    collection: &str,
    state: ResolveState,
    event: ResolveEvent,
) -> (r: (ResolveState, ResolveAction))
    ensures
        match (state, event) {
            (ResolveState::Loading, ResolveEvent::Loaded(content)) => match saved_id(
                bytes_view(content),
            ) {
                Some(bytes) => {
                    &&& r.0 matches ResolveState::Opening(a) && a@ == bytes
                    &&& r.1 matches ResolveAction::Open(b) && b@ == bytes
                },
                None => r.0 is Creating && r.1 is Create,
            },
            (ResolveState::Opening(id), ResolveEvent::Opened(opened)) => if opened {
                &&& r.0 matches ResolveState::Done(a) && a@ == id@
                &&& r.1 matches ResolveAction::Finish(b) && b@ == id@
            } else {
                r.0 is Creating && r.1 is Create
            },
            (ResolveState::Creating, ResolveEvent::Created(Ok(id))) => {
                &&& r.0 matches ResolveState::Saving(a) && a@ == id@
                &&& r.1 matches ResolveAction::Save(record) && record.key@ == spec_registry_key(
                    collection@,
                ) && record.content@ == id@
            },
            (ResolveState::Creating, ResolveEvent::Created(Err(m))) => {
                &&& r.0 is Failed
                &&& r.1 matches ResolveAction::Fail(StorageError::Internal(t)) && t@
                    == "Failed to create "@ + collection@ + " document: "@ + m@
            },
            (ResolveState::Saving(id), ResolveEvent::Saved(Ok(_))) => {
                &&& r.0 matches ResolveState::Done(a) && a@ == id@
                &&& r.1 matches ResolveAction::Finish(b) && b@ == id@
            },
            (ResolveState::Saving(_), ResolveEvent::Saved(Err(m))) => {
                &&& r.0 is Failed
                &&& r.1 matches ResolveAction::Fail(StorageError::Internal(t)) && t@
                    == "Failed to save namespace ID: "@ + m@
            },
            (s, _) => r.0 == s && r.1 is Ignore,
        },
{
    match (state, event) {
        (ResolveState::Loading, ResolveEvent::Loaded(content)) => match read_saved_id(&content) {
            Some(id) => {
                let again = id.clone();
                (ResolveState::Opening(id), ResolveAction::Open(again))
            },
            None => (ResolveState::Creating, ResolveAction::Create),
        },
        (ResolveState::Opening(id), ResolveEvent::Opened(opened)) => {
            if opened {
                let again = id.clone();
                (ResolveState::Done(id), ResolveAction::Finish(again))
            } else {
                (ResolveState::Creating, ResolveAction::Create)
            }
        },
        (ResolveState::Creating, ResolveEvent::Created(Ok(id))) => {
            let record = save_namespace_id(collection, &id);
            (ResolveState::Saving(id), ResolveAction::Save(record))
        },
        (ResolveState::Creating, ResolveEvent::Created(Err(m))) => {
            let mut t = join("Failed to create ", collection);
            t.append(" document: ");
            t.append(m.as_str());
            (ResolveState::Failed, ResolveAction::Fail(StorageError::Internal(t)))
        },
        (ResolveState::Saving(id), ResolveEvent::Saved(Ok(_))) => {
            let again = id.clone();
            (ResolveState::Done(id), ResolveAction::Finish(again))
        },
        (ResolveState::Saving(_), ResolveEvent::Saved(Err(m))) => {
            let t = join("Failed to save namespace ID: ", m.as_str());
            (ResolveState::Failed, ResolveAction::Fail(StorageError::Internal(t)))
        },
        (s, _) => (s, ResolveAction::Ignore),
    }
}

/// Where a collection stands in the registry.
pub enum Standing {
    /// Nobody has asked for the collection, or resolving it failed.
    Unbound,
    /// Somebody is resolving the collection.
    Resolving,
    /// The collection is bound to the namespace with these bytes.
    Bound(Seq<u8>),
}

/// What the registry keeps of a collection that was asked for.
#[derive(Debug)]
enum Slot {
    Resolving,
    Bound(NamespaceId),
}

#[derive(Debug)]
struct SlotEntry {
    name: String,
    slot: Slot,
}

/// What the registry keeps of a collection, as a mathematical value.
pub enum SlotView {
    Resolving,
    Bound(Seq<u8>),
}

/// The bindings of the process: for each collection at most one namespace,
/// which never changes once it is set.
#[derive(Debug)]
pub struct Registry {
    slots: Vec<SlotEntry>,
}

/// The answer to a caller who asks for a collection.
#[derive(Debug, PartialEq, Eq)]
pub enum Claim {
    /// The collection is bound: use this namespace.
    Bound(NamespaceId),
    /// Somebody else is resolving the collection: wait and ask again.
    Wait,
    /// The collection is yours to resolve.
    Go,
}

spec fn slot_view(slot: Slot) -> SlotView {
    match slot {
        Slot::Resolving => SlotView::Resolving,
        Slot::Bound(id) => SlotView::Bound(id@),
    }
}

spec fn pairs_of(slots: Seq<SlotEntry>) -> Seq<(Seq<char>, SlotView)> {
    slots.map_values(|e: SlotEntry| (e.name@, slot_view(e.slot)))
}

impl View for Registry {
    type V = Seq<(Seq<char>, SlotView)>;

    closed spec fn view(&self) -> Seq<(Seq<char>, SlotView)> {
        pairs_of(self.slots@)
    }
}

impl Registry {
    #[verifier::type_invariant]
    spec fn well_formed(&self) -> bool {
        keys(pairs_of(self.slots@)).no_duplicates()
    }

    /// Where a collection stands.
    pub open spec fn standing(&self, name: Seq<char>) -> Standing {
        match value_at(self@, name) {
            None => Standing::Unbound,
            Some(SlotView::Resolving) => Standing::Resolving,
            Some(SlotView::Bound(id)) => Standing::Bound(id),
        }
    }

    /// A registry in which no collection was asked for.
    pub fn new() -> (r: Self)
        ensures
            forall|name: Seq<char>| r.standing(name) is Unbound,
    {
        let r = Registry { slots: Vec::new() };
        assert(pairs_of(r.slots@) =~= Seq::<(Seq<char>, SlotView)>::empty());
        assert(keys(r@) =~= Seq::<Seq<char>>::empty());
        r
    }

    fn find(&self, name: &str) -> (r: usize)
        ensures
            r == first_index(keys(self@), name@),
            r <= self.slots.len(),
            self.slots.len() == self@.len(),
    {
        let ghost names = keys(pairs_of(self.slots@));
        let mut i: usize = 0;
        while i < self.slots.len()
            invariant
                i <= self.slots.len(),
                names == keys(pairs_of(self.slots@)),
                forall|k: int| 0 <= k < i ==> #[trigger] names[k] != name@,
            decreases self.slots.len() - i,
        {
            if same_text(self.slots[i].name.as_str(), name) {
                proof {
                    lemma_first_index_is(names, name@, i as int);
                }
                return i;
            }
            i += 1;
        }
        proof {
            lemma_first_index_is(names, name@, i as int);
        }
        i
    }

    /// The namespace that a collection is bound to, if it is bound.
    pub fn get(&self, name: &str) -> (r: Option<NamespaceId>)
        ensures
            match self.standing(name@) {
                Standing::Bound(id) => id_view(r) == Some(id),
                _ => r is None,
            },
    {
        let at = self.find(name);
        if at < self.slots.len() {
            match &self.slots[at].slot {
                Slot::Bound(id) => Some(id.clone()),
                Slot::Resolving => None,
            }
        } else {
            None
        }
    }

    fn put(&mut self, name: &str, slot: Slot)
        ensures
            final(self)@ == with_value(old(self)@, name@, slot_view(slot)),
    {
        proof {
            use_type_invariant(&*self);
        }
        let at = self.find(name);
        let ghost before = pairs_of(self.slots@);
        let ghost v = slot_view(slot);
        let mut slots: Vec<SlotEntry> = Vec::new();
        std::mem::swap(&mut slots, &mut self.slots);
        proof {
            lemma_first_index(keys(before), name@);
            assert(keys(pairs_of(self.slots@)) =~= Seq::<Seq<char>>::empty());
            lemma_with_value_distinct(before, name@, v);
        }
        if at < slots.len() {
            slots.remove(at);
            slots.insert(at, SlotEntry { name: name.to_string(), slot });
        } else {
            slots.push(SlotEntry { name: name.to_string(), slot });
        }
        assert(pairs_of(slots@) =~= with_value(before, name@, v));
        self.slots = slots;
    }

    /// Asks for a collection. A bound collection answers its namespace. A
    /// collection that somebody is resolving answers `Wait`. Any other
    /// collection is now the caller's to resolve, and answers `Go`.
    /// Nothing changes for another collection.
    pub fn claim(&mut self, name: &str) -> (r: Claim)
        ensures
            match old(self).standing(name@) {
                Standing::Bound(id) => r matches Claim::Bound(b) && b@ == id && final(self)@
                    == old(self)@,
                Standing::Resolving => r is Wait && final(self)@ == old(self)@,
                Standing::Unbound => r is Go && final(self).standing(name@) is Resolving,
            },
            forall|other: Seq<char>|
                other != name@ ==> final(self).standing(other) == old(self).standing(other),
    {
        let at = self.find(name);
        if at < self.slots.len() {
            match &self.slots[at].slot {
                Slot::Bound(id) => Claim::Bound(id.clone()),
                Slot::Resolving => Claim::Wait,
            }
        } else {
            proof {
                lemma_with_value_same(self@, name@, SlotView::Resolving);
                assert forall|other: Seq<char>| other != name@ implies value_at(
                    with_value(self@, name@, SlotView::Resolving),
                    other,
                ) == value_at(self@, other) by {
                    lemma_with_value_other(self@, name@, SlotView::Resolving, other);
                }
            }
            self.put(name, Slot::Resolving);
            Claim::Go
        }
    }

    /// Binds a collection to a namespace, unless it is bound: the first
    /// binding stays. The answer is the namespace that the collection is
    /// bound to afterwards. Nothing changes for another collection.
    pub fn bind(&mut self, name: &str, id: NamespaceId) -> (r: NamespaceId)
        ensures
            match old(self).standing(name@) {
                Standing::Bound(first) => r@ == first && final(self)@ == old(self)@,
                _ => r@ == id@ && final(self).standing(name@) == Standing::Bound(id@),
            },
            forall|other: Seq<char>|
                other != name@ ==> final(self).standing(other) == old(self).standing(other),
    {
        match self.get(name) {
            Some(first) => first,
            None => {
                let again = id.clone();
                proof {
                    lemma_with_value_same(self@, name@, SlotView::Bound(id@));
                    assert forall|other: Seq<char>| other != name@ implies value_at(
                        with_value(self@, name@, SlotView::Bound(id@)),
                        other,
                    ) == value_at(self@, other) by {
                        lemma_with_value_other(self@, name@, SlotView::Bound(id@), other);
                    }
                }
                self.put(name, Slot::Bound(id));
                again
            },
        }
    }

    /// Gives up the resolution of a collection, so that a later caller may
    /// try again. A bound collection stays bound. Nothing changes for
    /// another collection.
    pub fn release(&mut self, name: &str)
        ensures
            final(self).standing(name@) == (match old(self).standing(name@) {
                Standing::Bound(id) => Standing::Bound(id),
                _ => Standing::Unbound,
            }),
            forall|other: Seq<char>|
                other != name@ ==> final(self).standing(other) == old(self).standing(other),
    {
        proof {
            use_type_invariant(&*self);
        }
        let at = self.find(name);
        if at < self.slots.len() {
            let resolving = match &self.slots[at].slot {
                Slot::Resolving => true,
                Slot::Bound(_) => false,
            };
            if resolving {
                let ghost before = pairs_of(self.slots@);
                let mut slots: Vec<SlotEntry> = Vec::new();
                std::mem::swap(&mut slots, &mut self.slots);
                proof {
                    assert(keys(pairs_of(self.slots@)) =~= Seq::<Seq<char>>::empty());
                    lemma_without(before, name@, name@);
                    assert forall|other: Seq<char>| other != name@ implies value_at(
                        without(before, name@),
                        other,
                    ) == value_at(before, other) by {
                        lemma_without(before, name@, other);
                    }
                }
                slots.remove(at);
                assert(pairs_of(slots@) =~= without(before, name@));
                self.slots = slots;
            }
        }
    }
}

/// The outcome of resolving a collection against the metadata namespace
/// held in memory.
#[derive(Debug, PartialEq, Eq)]
pub enum Resolved {
    /// The collection is bound to this namespace.
    Bound(NamespaceId),
    /// Somebody else is resolving the collection.
    Wait,
}

/// Resolves a collection against a metadata namespace held in memory.
///
/// A bound collection answers its namespace, and nothing is read, created
/// or written: however often and by whomever it is asked for, a collection
/// has one namespace. A collection that somebody is resolving answers
/// `Wait`. Any other collection is resolved and bound: to the saved
/// namespace if the record holds one and `opens` says that it opens, and
/// else to `fresh`, the namespace that the store allocates, whose binding
/// is then written to the record in the name of `author`.
pub fn resolve_or_create(
    registry: &mut Registry,
    metadata: &mut Replica,
    author: &str,
    collection: &str,
    opens: bool,
    fresh: NamespaceId,
) -> (r: Resolved)
    ensures
        forall|other: Seq<char>|
            other != collection@ ==> final(registry).standing(other) == old(registry).standing(
                other,
            ),
        match old(registry).standing(collection@) {
            Standing::Bound(id) => r matches Resolved::Bound(b) && b@ == id && final(registry)@
                == old(registry)@ && final(metadata)@ == old(metadata)@,
            Standing::Resolving => r is Wait && final(registry)@ == old(registry)@
                && final(metadata)@ == old(metadata)@,
            Standing::Unbound => {
                let saved = match fetched(old(metadata)@, spec_registry_key(collection@)) {
                    Fetched::Content(bytes) => saved_id(Some(bytes)),
                    _ => None,
                };
                if saved is Some && opens {
                    &&& r matches Resolved::Bound(b) && b@ == saved->Some_0
                    &&& final(registry).standing(collection@) == Standing::Bound(saved->Some_0)
                    &&& final(metadata)@ == old(metadata)@
                } else {
                    &&& r matches Resolved::Bound(b) && b@ == fresh@
                    &&& final(registry).standing(collection@) == Standing::Bound(fresh@)
                    &&& final(metadata)@ == after_write(
                        old(metadata)@,
                        author@,
                        spec_registry_key(collection@),
                        fresh@,
                    )
                }
            },
        },
{
    match registry.claim(collection) {
        Claim::Bound(id) => {
            return Resolved::Bound(id);
        },
        Claim::Wait => {
            return Resolved::Wait;
        },
        Claim::Go => {},
    }
    let key = registry_key(collection);
    let content = match fetch_record(metadata, key.as_slice()) {
        Ok(content) => content,
        Err(_) => None,
    };
    let (state, _) = start_resolution(collection);
    let (state, action) = resolve_step(collection, state, ResolveEvent::Loaded(content));
    let (state, action) = match action {
        ResolveAction::Open(_) => resolve_step(collection, state, ResolveEvent::Opened(opens)),
        _ => (state, action),
    };
    match action {
        ResolveAction::Finish(id) => Resolved::Bound(registry.bind(collection, id)),
        _ => {
            let (state, action) = resolve_step(collection, state, ResolveEvent::Created(Ok(fresh)));
            match action {
                ResolveAction::Save(record) => {
                    put_record(metadata, author, record.key.as_slice(), record.content.as_slice());
                    match state {
                        ResolveState::Saving(id) => Resolved::Bound(registry.bind(collection, id)),
                        _ => Resolved::Wait,
                    }
                },
                _ => Resolved::Wait,
            }
        },
    }
}

} // verus!
