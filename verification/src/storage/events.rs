//! The live-event bridge: from the store's change notifications to the
//! events that the application's user interface receives.
//!
//! The bridge itself does no I/O. Whoever pulls the change stream hands each
//! item to [`DocumentSubscriptionService::on_item`] and carries out the
//! action it answers with.

use crate::storage::collection::Collection;
use crate::storage::json::{
    array_value, field_docs, integer_value, item_docs, json_doc, object_of, object_value,
    text_value, JsonDoc,
};
use vstd::prelude::*;

verus! {

/// How long a subscription rests after a stream error before it ends, in
/// milliseconds.
pub const STREAM_ERROR_PAUSE_MS: u64 = 5000;

/// A change notification of the store, reduced to what the bridge reads.
/// Identities and hashes come in their text form.
#[derive(Debug, PartialEq, Eq)]
pub enum SourceEvent {
    /// An entry was written on this node.
    InsertLocal { key: Vec<u8>, author: String },
    /// An entry arrived from the peer `from`.
    InsertRemote { key: Vec<u8>, author: String, from: String },
    /// The content of an entry is now at hand.
    ContentReady { hash: String },
    /// A peer joined the swarm of the namespace.
    NeighborUp { node_id: String },
    /// A peer left the swarm of the namespace.
    NeighborDown { node_id: String },
    /// A synchronisation run ended; `summary` describes it.
    SyncFinished { summary: String },
    /// A notification of a kind the bridge does not know.
    Other,
}

/// Whether a peer came or went.
#[derive(Clone, Copy, Debug, PartialEq, Eq, Structural)]
pub enum PeerStatus {
    Up,
    Down,
}

/// An event as the application sees it.
#[derive(Debug, PartialEq, Eq)]
pub enum NormalizedEvent {
    LocalInsert { key: Vec<u8>, author: String },
    RemoteInsert { key: Vec<u8>, author: String, from: String },
    ContentReady { hash: String },
    NeighborStatusChanged { node_id: String, status: PeerStatus, document: Collection },
    SyncFinished { document: Collection, event: String },
}

/// The application event that a notification of a collection becomes;
/// `None` for a notification of an unknown kind, which is not forwarded.
pub open spec fn normalized(document: Collection, event: SourceEvent) -> Option<NormalizedEvent> {
    match event {
        SourceEvent::InsertLocal { key, author } => Some(
            NormalizedEvent::LocalInsert { key, author },
        ),
        SourceEvent::InsertRemote { key, author, from } => Some(
            NormalizedEvent::RemoteInsert { key, author, from },
        ),
        SourceEvent::ContentReady { hash } => Some(NormalizedEvent::ContentReady { hash }),
        SourceEvent::NeighborUp { node_id } => Some(
            NormalizedEvent::NeighborStatusChanged { node_id, status: PeerStatus::Up, document },
        ),
        SourceEvent::NeighborDown { node_id } => Some(
            NormalizedEvent::NeighborStatusChanged { node_id, status: PeerStatus::Down, document },
        ),
        SourceEvent::SyncFinished { summary } => Some(
            NormalizedEvent::SyncFinished { document, event: summary },
        ),
        SourceEvent::Other => None,
    }
}

/// The name under which the insertions of a collection are announced.
pub open spec fn update_event_name(document: Collection) -> Seq<char> {
    match document {
        Collection::User => "user-profile-updated"@,
        Collection::Post => "post-updated"@,
        Collection::Settings => "settings-updated"@,
    }
}

/// The name under which a collection announces that content is at hand.
pub open spec fn content_event_name(document: Collection) -> Seq<char> {
    match document {
        Collection::User => "user-content-ready"@,
        Collection::Post => "post-content-ready"@,
        Collection::Settings => "settings-content-ready"@,
    }
}

/// The name under which an event of a collection is emitted.
pub open spec fn spec_event_name(document: Collection, event: NormalizedEvent) -> Seq<char> {
    match event {
        NormalizedEvent::LocalInsert { .. } => update_event_name(document),
        NormalizedEvent::RemoteInsert { .. } => update_event_name(document),
        NormalizedEvent::ContentReady { .. } => content_event_name(document),
        NormalizedEvent::NeighborStatusChanged { .. } => "neighbor-status-changed"@,
        NormalizedEvent::SyncFinished { .. } => "sync-finished"@,
    }
}

/// The text of a peer status in a payload.
pub open spec fn status_text(status: PeerStatus) -> Seq<char> {
    match status {
        PeerStatus::Up => "up"@,
        PeerStatus::Down => "down"@,
    }
}

/// Bytes as a JSON array of numbers.
pub open spec fn bytes_doc(bytes: Seq<u8>) -> JsonDoc {
    JsonDoc::Array(bytes.map_values(|b: u8| JsonDoc::Integer(b as int)))
}

/// The payload that an event is emitted with.
pub open spec fn payload_doc(event: NormalizedEvent) -> JsonDoc {
    match event {
        NormalizedEvent::LocalInsert { key, author } => JsonDoc::Object(
            Map::empty().insert("type"@, JsonDoc::Text("local_insert"@)).insert(
                "key"@,
                bytes_doc(key@),
            ).insert("author"@, JsonDoc::Text(author@)),
        ),
        NormalizedEvent::RemoteInsert { key, author, from } => JsonDoc::Object(
            Map::empty().insert("type"@, JsonDoc::Text("remote_insert"@)).insert(
                "key"@,
                bytes_doc(key@),
            ).insert("author"@, JsonDoc::Text(author@)).insert("from"@, JsonDoc::Text(from@)),
        ),
        NormalizedEvent::ContentReady { hash } => JsonDoc::Object(
            Map::empty().insert("hash"@, JsonDoc::Text(hash@)),
        ),
        NormalizedEvent::NeighborStatusChanged { node_id, status, document } => JsonDoc::Object(
            Map::empty().insert("node_id"@, JsonDoc::Text(node_id@)).insert(
                "status"@,
                JsonDoc::Text(status_text(status)),
            ).insert("document"@, JsonDoc::Text(document.spec_tag())),
        ),
        NormalizedEvent::SyncFinished { document, event } => JsonDoc::Object(
            Map::empty().insert("document"@, JsonDoc::Text(document.spec_tag())).insert(
                "event"@,
                JsonDoc::Text(event@),
            ),
        ),
    }
}

/// An event with the name it is emitted under.
#[derive(Debug, PartialEq, Eq)]
pub struct Emission {
    pub name: String,
    pub event: NormalizedEvent,
}

/// The application event for a notification of a collection, or `None`
/// where the notification is of an unknown kind.
pub fn normalize(document: Collection, event: SourceEvent) -> (r: Option<NormalizedEvent>)
    ensures
        r == normalized(document, event),
{
    match event {
        SourceEvent::InsertLocal { key, author } => Some(
            NormalizedEvent::LocalInsert { key, author },
        ),
        SourceEvent::InsertRemote { key, author, from } => Some(
            NormalizedEvent::RemoteInsert { key, author, from },
        ),
        SourceEvent::ContentReady { hash } => Some(NormalizedEvent::ContentReady { hash }),
        SourceEvent::NeighborUp { node_id } => Some(
            NormalizedEvent::NeighborStatusChanged { node_id, status: PeerStatus::Up, document },
        ),
        SourceEvent::NeighborDown { node_id } => Some(
            NormalizedEvent::NeighborStatusChanged { node_id, status: PeerStatus::Down, document },
        ),
        SourceEvent::SyncFinished { summary } => Some(
            NormalizedEvent::SyncFinished { document, event: summary },
        ),
        SourceEvent::Other => None,
    }
}

/// The name under which an event of a collection is emitted.
pub fn event_name(document: Collection, event: &NormalizedEvent) -> (r: &'static str)
    ensures
        r@ == spec_event_name(document, *event),
{
    match event {
        NormalizedEvent::LocalInsert { .. }
        | NormalizedEvent::RemoteInsert { .. } => match document {
            Collection::User => "user-profile-updated",
            Collection::Post => "post-updated",
            Collection::Settings => "settings-updated",
        },
        NormalizedEvent::ContentReady { .. } => match document {
            Collection::User => "user-content-ready",
            Collection::Post => "post-content-ready",
            Collection::Settings => "settings-content-ready",
        },
        NormalizedEvent::NeighborStatusChanged { .. } => "neighbor-status-changed",
        NormalizedEvent::SyncFinished { .. } => "sync-finished",
    }
}

/// What is emitted for a notification of a collection: exactly one event
/// for each notification of a known kind, nothing for any other.
pub fn emission_for(document: Collection, event: SourceEvent) -> (r: Option<Emission>)
    ensures
        match r {
            Some(e) => normalized(document, event) == Some(e.event) && e.name@ == spec_event_name(
                document,
                e.event,
            ),
            None => normalized(document, event) is None,
        },
{
    match normalize(document, event) {
        Some(event) => {
            let name = event_name(document, &event).to_string();
            Some(Emission { name, event })
        },
        None => None,
    }
}

/// What is emitted for a notification of the user collection.
pub fn handle_user_document_event(event: SourceEvent) -> (r: Option<Emission>)
    ensures
        match r {
            Some(e) => normalized(Collection::User, event) == Some(e.event) && e.name@
                == spec_event_name(Collection::User, e.event),
            None => normalized(Collection::User, event) is None,
        },
{
    emission_for(Collection::User, event)
}

/// What is emitted for a notification of the post collection.
pub fn handle_post_document_event(event: SourceEvent) -> (r: Option<Emission>)
    ensures
        match r {
            Some(e) => normalized(Collection::Post, event) == Some(e.event) && e.name@
                == spec_event_name(Collection::Post, e.event),
            None => normalized(Collection::Post, event) is None,
        },
{
    emission_for(Collection::Post, event)
}

/// Bytes as a JSON array of numbers.
pub fn bytes_value(bytes: &Vec<u8>) -> (r: serde_json::Value)
    ensures
        json_doc(r) == bytes_doc(bytes@),
{
    let mut out: Vec<serde_json::Value> = Vec::new();
    let mut i: usize = 0;
    while i < bytes.len()
        invariant
            i <= bytes.len(),
            out.len() == i,
            forall|k: int|
                0 <= k < i ==> json_doc(#[trigger] out[k]) == JsonDoc::Integer(bytes[k] as int),
        decreases bytes.len() - i,
    {
        out.push(integer_value(bytes[i] as i64));
        i += 1;
    }
    proof {
        assert(item_docs(out@) =~= bytes@.map_values(|b: u8| JsonDoc::Integer(b as int)));
    }
    array_value(out)
}

/// The names of the members of the payloads differ from one another where
/// they stand in one payload.
pub proof fn lemma_payload_names()
    ensures
        "type"@.len() == 4,
        "key"@.len() == 3,
        "author"@.len() == 6,
        "from"@.len() == 4,
        "type"@[0] != "from"@[0],
        "node_id"@.len() == 7,
        "status"@.len() == 6,
        "document"@.len() == 8,
        "event"@.len() == 5,
{
    reveal_strlit("type");
    reveal_strlit("key");
    reveal_strlit("author");
    reveal_strlit("from");
    reveal_strlit("node_id");
    reveal_strlit("status");
    reveal_strlit("document");
    reveal_strlit("event");
}

/// The payload that an event is emitted with, as a JSON value.
pub fn payload(event: &NormalizedEvent) -> (r: serde_json::Value)
    ensures
        json_doc(r) == payload_doc(*event),
{
    let mut fields: Vec<(String, serde_json::Value)> = Vec::new();
    proof {
        lemma_payload_names();
        reveal_with_fuel(object_of, 5);
    }
    match event {
        NormalizedEvent::LocalInsert { key, author } => {
            fields.push(("type".to_string(), text_value("local_insert")));
            fields.push(("key".to_string(), bytes_value(key)));
            fields.push(("author".to_string(), text_value(author.as_str())));
            proof {
                let docs = field_docs(fields@);
                assert(docs.len() == 3 && docs.drop_last().len() == 2
                    && docs.drop_last().drop_last().len() == 1);
                assert(object_of(docs) =~= payload_doc(*event)->Object_0);
            }
        },
        NormalizedEvent::RemoteInsert { key, author, from } => {
            fields.push(("type".to_string(), text_value("remote_insert")));
            fields.push(("key".to_string(), bytes_value(key)));
            fields.push(("author".to_string(), text_value(author.as_str())));
            fields.push(("from".to_string(), text_value(from.as_str())));
            proof {
                let docs = field_docs(fields@);
                assert(docs.len() == 4 && docs.drop_last().len() == 3
                    && docs.drop_last().drop_last().len() == 2
                    && docs.drop_last().drop_last().drop_last().len() == 1);
                assert(object_of(docs) =~= payload_doc(*event)->Object_0);
            }
        },
        NormalizedEvent::ContentReady { hash } => {
            fields.push(("hash".to_string(), text_value(hash.as_str())));
            proof {
                let docs = field_docs(fields@);
                assert(docs.len() == 1);
                assert(object_of(docs) =~= payload_doc(*event)->Object_0);
            }
        },
        NormalizedEvent::NeighborStatusChanged { node_id, status, document } => {
            let status_text = match status {
                PeerStatus::Up => "up",
                PeerStatus::Down => "down",
            };
            fields.push(("node_id".to_string(), text_value(node_id.as_str())));
            fields.push(("status".to_string(), text_value(status_text)));
            fields.push(("document".to_string(), text_value(document.tag())));
            proof {
                let docs = field_docs(fields@);
                assert(docs.len() == 3 && docs.drop_last().len() == 2
                    && docs.drop_last().drop_last().len() == 1);
                assert(object_of(docs) =~= payload_doc(*event)->Object_0);
            }
        },
        NormalizedEvent::SyncFinished { document, event: summary } => {
            fields.push(("document".to_string(), text_value(document.tag())));
            fields.push(("event".to_string(), text_value(summary.as_str())));
            proof {
                let docs = field_docs(fields@);
                assert(docs.len() == 2 && docs.drop_last().len() == 1);
                assert(object_of(docs) =~= payload_doc(*event)->Object_0);
            }
        },
    }
    object_value(fields)
}

/// Where the subscription to one namespace stands.
#[derive(Clone, Copy, Debug, PartialEq, Eq, Structural)]
pub enum SubscriptionState {
    /// Nothing was asked for, or the subscription was stopped.
    NotStarted,
    /// The namespace is being opened and its change stream subscribed to.
    Subscribing,
    /// Notifications are being forwarded.
    Running,
    /// Subscribing failed, or the stream reported an error and was left.
    Error,
    /// The stream closed.
    Ended,
}

/// What the change stream of a namespace yields.
#[derive(Debug, PartialEq, Eq)]
pub enum StreamItem {
    Event(SourceEvent),
    /// The stream reported an error.
    Failure(String),
    /// The stream closed.
    End,
}

/// What the holder of a change stream does after an item.
#[derive(Debug, PartialEq, Eq)]
pub enum BridgeAction {
    /// Emit this one event and pull the next item.
    Emit(Emission),
    /// Emit nothing and pull the next item.
    Ignore,
    /// Rest for so many milliseconds, then leave the stream.
    PauseThenStop { millis: u64 },
    /// Leave the stream.
    Stop,
}

/// A subscription can be started when none is under way.
pub open spec fn startable(state: SubscriptionState) -> bool {
    state is NotStarted || state is Error || state is Ended
}

/// A subscription holds a task while it is being set up or running.
pub open spec fn active(state: SubscriptionState) -> bool {
    state is Subscribing || state is Running
}

/// The state after an item of the stream.
pub open spec fn state_after(state: SubscriptionState, item: StreamItem) -> SubscriptionState {
    if state is Running {
        match item {
            StreamItem::Event(_) => SubscriptionState::Running,
            StreamItem::Failure(_) => SubscriptionState::Error,
            StreamItem::End => SubscriptionState::Ended,
        }
    } else {
        state
    }
}

/// The subscriptions of the application, one for each collection.
#[derive(Clone, Copy, Debug, PartialEq, Eq)]
pub struct DocumentSubscriptionService {
    user_subscription: SubscriptionState,
    post_subscription: SubscriptionState,
    settings_subscription: SubscriptionState,
}

impl DocumentSubscriptionService {
    /// Where the subscription of a collection stands.
    pub closed spec fn spec_state(&self, document: Collection) -> SubscriptionState {
        match document {
            Collection::User => self.user_subscription,
            Collection::Post => self.post_subscription,
            Collection::Settings => self.settings_subscription,
        }
    }

    /// A service that has started nothing.
    pub fn new() -> (r: Self)
        ensures
            forall|c: Collection| r.spec_state(c) is NotStarted,
    {
        DocumentSubscriptionService {
            user_subscription: SubscriptionState::NotStarted,
            post_subscription: SubscriptionState::NotStarted,
            settings_subscription: SubscriptionState::NotStarted,
        }
    }

    /// Where the subscription of a collection stands.
    pub fn state(&self, document: Collection) -> (r: SubscriptionState)
        ensures
            r == self.spec_state(document),
    {
        match document {
            Collection::User => self.user_subscription,
            Collection::Post => self.post_subscription,
            Collection::Settings => self.settings_subscription,
        }
    }

    fn set(&mut self, document: Collection, state: SubscriptionState)
        ensures
            final(self).spec_state(document) == state,
            forall|c: Collection|
                c != document ==> final(self).spec_state(c) == old(self).spec_state(c),
    {
        match document {
            Collection::User => {
                self.user_subscription = state;
            },
            Collection::Post => {
                self.post_subscription = state;
            },
            Collection::Settings => {
                self.settings_subscription = state;
            },
        }
    }

    /// Asks for the subscription of a collection. Where none is under way
    /// the subscription is now being set up and the answer is `true`: the
    /// caller opens or creates the namespace and subscribes to its stream.
    /// Where one is under way nothing changes and the answer is `false`.
    pub fn start(&mut self, document: Collection) -> (r: bool)
        ensures
            r == startable(old(self).spec_state(document)),
            final(self).spec_state(document) == if r {
                SubscriptionState::Subscribing
            } else {
                old(self).spec_state(document)
            },
            forall|c: Collection|
                c != document ==> final(self).spec_state(c) == old(self).spec_state(c),
    {
        match self.state(document) {
            SubscriptionState::NotStarted | SubscriptionState::Error | SubscriptionState::Ended => {
                self.set(document, SubscriptionState::Subscribing);
                true
            },
            _ => false,
        }
    }

    /// Records how setting up a subscription went: it runs if the stream
    /// was obtained and is in error if not. Without a subscription being
    /// set up nothing changes.
    pub fn subscribed(&mut self, document: Collection, obtained: bool)
        ensures
            final(self).spec_state(document) == if old(self).spec_state(document) is Subscribing {
                if obtained {
                    SubscriptionState::Running
                } else {
                    SubscriptionState::Error
                }
            } else {
                old(self).spec_state(document)
            },
            forall|c: Collection|
                c != document ==> final(self).spec_state(c) == old(self).spec_state(c),
    {
        match self.state(document) {
            SubscriptionState::Subscribing => {
                if obtained {
                    self.set(document, SubscriptionState::Running);
                } else {
                    self.set(document, SubscriptionState::Error);
                }
            },
            _ => {},
        }
    }

    /// Takes one item of the change stream of a collection. A running
    /// subscription emits one event for each notification of a known kind
    /// and none for another, rests and ends after a stream error, and ends
    /// when the stream closes. A subscription that is not running ignores
    /// the item.
    pub fn on_item(&mut self, document: Collection, item: StreamItem) -> (r: BridgeAction)
        ensures
            final(self).spec_state(document) == state_after(old(self).spec_state(document), item),
            forall|c: Collection|
                c != document ==> final(self).spec_state(c) == old(self).spec_state(c),
            !(old(self).spec_state(document) is Running) ==> r is Ignore,
            old(self).spec_state(document) is Running ==> match item {
                StreamItem::Event(event) => match normalized(document, event) {
                    Some(n) => r matches BridgeAction::Emit(e) && e.event == n && e.name@
                        == spec_event_name(document, n),
                    None => r is Ignore,
                },
                StreamItem::Failure(_) => r == (BridgeAction::PauseThenStop {
                    millis: STREAM_ERROR_PAUSE_MS,
                }),
                StreamItem::End => r is Stop,
            },
    {
        match self.state(document) {
            SubscriptionState::Running => match item {
                StreamItem::Event(event) => match emission_for(document, event) {
                    Some(e) => BridgeAction::Emit(e),
                    None => BridgeAction::Ignore,
                },
                StreamItem::Failure(_) => {
                    self.set(document, SubscriptionState::Error);
                    BridgeAction::PauseThenStop { millis: STREAM_ERROR_PAUSE_MS }
                },
                StreamItem::End => {
                    self.set(document, SubscriptionState::Ended);
                    BridgeAction::Stop
                },
            },
            _ => BridgeAction::Ignore,
        }
    }

    /// Stops every subscription. The answer lists the collections whose
    /// task is to be cancelled: those that were being set up or running,
    /// users first, then posts, then settings.
    pub fn stop(&mut self) -> (r: Vec<Collection>)
        ensures
            forall|c: Collection| final(self).spec_state(c) is NotStarted,
            r@ == cancelled(*old(self)),
    {
        let mut out: Vec<Collection> = Vec::new();
        if is_active(self.user_subscription) {
            out.push(Collection::User);
        }
        if is_active(self.post_subscription) {
            out.push(Collection::Post);
        }
        if is_active(self.settings_subscription) {
            out.push(Collection::Settings);
        }
        assert(out@ =~= cancelled(*self));
        self.user_subscription = SubscriptionState::NotStarted;
        self.post_subscription = SubscriptionState::NotStarted;
        self.settings_subscription = SubscriptionState::NotStarted;
        out
    }
}

/// The collections whose subscription holds a task, in the order users,
/// posts, settings.
pub open spec fn cancelled(service: DocumentSubscriptionService) -> Seq<Collection> {
    let u = if active(service.spec_state(Collection::User)) {
        seq![Collection::User]
    } else {
        Seq::empty()
    };
    let p = if active(service.spec_state(Collection::Post)) {
        seq![Collection::Post]
    } else {
        Seq::empty()
    };
    let s = if active(service.spec_state(Collection::Settings)) {
        seq![Collection::Settings]
    } else {
        Seq::empty()
    };
    u + p + s
}

/// Whether a subscription holds a task.
pub fn is_active(state: SubscriptionState) -> (r: bool)
    ensures
        r == active(state),
{
    match state {
        SubscriptionState::Subscribing | SubscriptionState::Running => true,
        _ => false,
    }
}

} // verus!
