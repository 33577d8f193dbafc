//! Messages, presence, roster and rooms, and the session that owns them.
use vstd::prelude::*;
use vstd::string::StringExecFns;
use vstd::string::StrSliceExecFns;
use vstd::pervasive::VecAdditionalExecFns;
use crate::auth::{
    AuthManager, AuthResult, AuthState, Credentials, credentials_problem, credentials_wellformed,
    exchange_rejection, jid_of,
};
use crate::clock::{current_timestamp, seconds_of, unix_time_nanos};
use crate::config::{Config, config_problem, config_valid};
use crate::error::{OpenFireError, error_text};
use crate::text::{lemma_radix_digits_injective, append_radix, before_at, copy_texts, decimal, hex, join2, local_part, owned, same_text};

verus! {

/// Kinds of message.
#[derive(Debug, Clone, Copy, PartialEq, Eq, Structural)]
pub enum MessageType {
    Chat,
    GroupChat,
    Headline,
    Normal,
    Error,
}

/// One message.
#[derive(Debug, Clone)]
pub struct Message {
    pub id: String,
    pub from: String,
    pub to: String,
    pub message_type: MessageType,
    pub subject: Option<String>,
    pub body: String,
    pub timestamp: u64,
    pub thread: Option<String>,
}

/// The message identifier generated from number `n`: `msg_` and `n` in hex.
pub open spec fn message_id(n: nat) -> Seq<char> {
    "msg_"@ + hex(n)
}

/// Whether `id` has the shape of a generated message identifier.
pub open spec fn is_message_id(id: Seq<char>) -> bool {
    exists|n: nat| id == message_id(n)
}

/// The message identifier for number `n`.
pub fn generate_message_id(n: u128) -> (r: String)
    ensures
        r@ == message_id(n as nat),
{
    let mut r = owned("msg_");
    append_radix(&mut r, n, 16);
    r
}

/// Identifiers generated from distinct numbers are distinct.
pub proof fn lemma_message_ids_distinct(a: nat, b: nat)
    requires
        a != b,
    ensures
        message_id(a) != message_id(b),
{
    if message_id(a) == message_id(b) {
        let p = "msg_"@;
        assert(message_id(a).skip(p.len() as int) =~= hex(a));
        assert(message_id(b).skip(p.len() as int) =~= hex(b));
        lemma_radix_digits_injective(a, b, 16);
    }
}

/// Source of message identifiers, shared by every session of a process.
/// Each identifier comes from a number strictly above every number issued
/// before, so no identifier is issued twice.
pub struct MessageCounter {
    /// The number from which the next identifier is generated.
    pub next: u64,
}

impl MessageCounter {
    /// A counter that has issued nothing.
    pub fn new() -> (r: MessageCounter)
        ensures
            r.next == 0,
    {
        MessageCounter { next: 0 }
    }

    /// The next identifier; the counter advances by one.
    pub fn issue(&mut self) -> (r: String)
        requires
            old(self).next < u64::MAX,
        ensures
            r@ == message_id(old(self).next as nat),
            final(self).next == old(self).next + 1,
    {
        let n = self.next;
        self.next = n + 1;
        generate_message_id(n as u128)
    }
}

/// Two identifiers issued from one counter, the second at any later point
/// (`later` is above the number the first came from), differ.
pub proof fn lemma_issued_ids_unique(first: u64, later: u64)
    requires
        first < later,
    ensures
        message_id(first as nat) != message_id(later as nat),
{
    lemma_message_ids_distinct(first as nat, later as nat);
}

impl Message {
    /// A message with every field given; no subject and no thread.
    pub fn compose(
        message_type: MessageType,
        id: String,
        from: String,
        to: String,
        body: String,
        timestamp: u64,
    ) -> (r: Message)
        ensures
            r.id == id,
            r.from == from,
            r.to == to,
            r.body == body,
            r.message_type == message_type,
            r.subject is None,
            r.thread is None,
            r.timestamp == timestamp,
    {
        Message { id, from, to, message_type, subject: None, body, timestamp, thread: None }
    }

    /// A one-to-one message, stamped now, its identifier taken from the
    /// clock's nanoseconds.
    pub fn new_chat(from: String, to: String, body: String) -> (r: Message)
        ensures
            is_message_id(r.id@),
            r.from == from,
            r.to == to,
            r.body == body,
            r.message_type == MessageType::Chat,
            r.subject is None,
            r.thread is None,
            exists|n: u128| r.timestamp == seconds_of(n),
    {
        let id = generate_message_id(unix_time_nanos());
        Message::compose(MessageType::Chat, id, from, to, body, current_timestamp())
    }

    /// A message to a room, stamped now, its identifier taken from the
    /// clock's nanoseconds.
    pub fn new_group_chat(from: String, to: String, body: String) -> (r: Message)
        ensures
            is_message_id(r.id@),
            r.from == from,
            r.to == to,
            r.body == body,
            r.message_type == MessageType::GroupChat,
            r.subject is None,
            r.thread is None,
            exists|n: u128| r.timestamp == seconds_of(n),
    {
        let id = generate_message_id(unix_time_nanos());
        Message::compose(MessageType::GroupChat, id, from, to, body, current_timestamp())
    }
}

/// Availability.
#[derive(Debug, Clone, Copy, PartialEq, Eq, Structural)]
pub enum PresenceStatus {
    Available,
    Away,
    ExtendedAway,
    DoNotDisturb,
    Unavailable,
    Invisible,
}

impl PresenceStatus {
    /// The status with numeric code `code` (0 to 5, in declaration order).
    pub fn from_code(code: i32) -> (r: Option<PresenceStatus>)
        ensures
            r is Some <==> 0 <= code <= 5,
            code == 0 ==> r == Some(PresenceStatus::Available),
            code == 1 ==> r == Some(PresenceStatus::Away),
            code == 2 ==> r == Some(PresenceStatus::ExtendedAway),
            code == 3 ==> r == Some(PresenceStatus::DoNotDisturb),
            code == 4 ==> r == Some(PresenceStatus::Unavailable),
            code == 5 ==> r == Some(PresenceStatus::Invisible),
    {
        match code {
            0 => Some(PresenceStatus::Available),
            1 => Some(PresenceStatus::Away),
            2 => Some(PresenceStatus::ExtendedAway),
            3 => Some(PresenceStatus::DoNotDisturb),
            4 => Some(PresenceStatus::Unavailable),
            5 => Some(PresenceStatus::Invisible),
            _ => None,
        }
    }
}

/// A user's presence.
#[derive(Debug, Clone)]
pub struct Presence {
    pub jid: String,
    pub status: PresenceStatus,
    pub status_message: Option<String>,
    pub priority: i8,
    pub timestamp: u64,
}

/// A copy of an optional string.
fn copy_opt(s: &Option<String>) -> (r: Option<String>)
    ensures
        r == *s,
{
    match s {
        Some(t) => Some(t.clone()),
        None => None,
    }
}

impl Presence {
    /// Presence with no status text and priority zero, stamped `timestamp`.
    pub fn at(jid: String, status: PresenceStatus, timestamp: u64) -> (r: Presence)
        ensures
            r.jid == jid,
            r.status == status,
            r.status_message is None,
            r.priority == 0,
            r.timestamp == timestamp,
    {
        Presence { jid, status, status_message: None, priority: 0, timestamp }
    }

    /// Presence with no status text and priority zero, stamped with the
    /// clock's seconds since the Unix epoch.
    pub fn new(jid: String, status: PresenceStatus) -> (r: Presence)
        ensures
            r.jid == jid,
            r.status == status,
            r.status_message is None,
            r.priority == 0,
            exists|n: u128| r.timestamp == seconds_of(n),
    {
        Presence::at(jid, status, current_timestamp())
    }

    /// The same presence with status text `message`.
    pub fn with_message(self, message: String) -> (r: Presence)
        ensures
            r == (Presence { status_message: Some(message), ..self }),
    {
        let mut p = self;
        p.status_message = Some(message);
        p
    }

    /// The same presence with priority `priority`.
    pub fn with_priority(self, priority: i8) -> (r: Presence)
        ensures
            r == (Presence { priority, ..self }),
    {
        let mut p = self;
        p.priority = priority;
        p
    }

    /// A field-by-field copy.
    pub fn duplicate(&self) -> (r: Presence)
        ensures
            r == *self,
    {
        Presence {
            jid: self.jid.clone(),
            status: self.status,
            status_message: copy_opt(&self.status_message),
            priority: self.priority,
            timestamp: self.timestamp,
        }
    }
}

/// A roster entry.
#[derive(Debug, Clone)]
pub struct Contact {
    pub jid: String,
    pub name: Option<String>,
    pub subscription: String,
    pub groups: Vec<String>,
    pub presence: Option<Presence>,
}

impl Contact {
    /// Whether `self` and `o` hold the same values.
    pub open spec fn same(&self, o: Contact) -> bool {
        &&& self.jid == o.jid
        &&& self.name == o.name
        &&& self.subscription == o.subscription
        &&& self.groups@ == o.groups@
        &&& self.presence == o.presence
    }

    /// A field-by-field copy.
    pub fn duplicate(&self) -> (r: Contact)
        ensures
            r.same(*self),
    {
        let presence = match &self.presence {
            Some(p) => Some(p.duplicate()),
            None => None,
        };
        Contact {
            jid: self.jid.clone(),
            name: copy_opt(&self.name),
            subscription: self.subscription.clone(),
            groups: copy_texts(&self.groups),
            presence,
        }
    }
}

/// A chat room.
#[derive(Debug, Clone)]
pub struct ChatRoom {
    pub jid: String,
    pub name: String,
    pub description: Option<String>,
    pub subject: Option<String>,
    pub participants: Vec<String>,
    pub joined: bool,
}

/// Something that happened in a session, for its subscriber.
#[derive(Debug, Clone)]
pub enum XmppEvent {
    MessageReceived(Message),
    PresenceUpdated(Presence),
    ContactUpdated(Contact),
    ConnectionStateChanged(String),
    Error(String),
}

/// Whether some room of `rooms` has identifier `jid`.
pub open spec fn has_room(rooms: Seq<ChatRoom>, jid: Seq<char>) -> bool {
    exists|i: int| 0 <= i < rooms.len() && rooms[i].jid@ == jid
}

/// Whether some contact of `contacts` has identifier `jid`.
pub open spec fn has_contact(contacts: Seq<Contact>, jid: Seq<char>) -> bool {
    exists|i: int| 0 <= i < contacts.len() && contacts[i].jid@ == jid
}

/// Whether no two rooms share an identifier.
pub open spec fn rooms_unique(rooms: Seq<ChatRoom>) -> bool {
    forall|i: int, j: int| 0 <= i < j < rooms.len() ==> rooms[i].jid@ != rooms[j].jid@
}

/// Whether no two contacts share an identifier.
pub open spec fn contacts_unique(contacts: Seq<Contact>) -> bool {
    forall|i: int, j: int| 0 <= i < j < contacts.len() ==> contacts[i].jid@ != contacts[j].jid@
}

/// The room that joining `jid` as `nickname` records.
pub open spec fn is_joined_room(r: ChatRoom, jid: Seq<char>, nickname: Seq<char>) -> bool {
    &&& r.jid@ == jid
    &&& r.name@ == local_part(jid)
    &&& r.description is None
    &&& r.subject is None
    &&& r.participants@.len() == 1
    &&& r.participants@[0]@ == nickname
    &&& r.joined
}

/// `new` is `old` with the entry for `jid` set to one that meets `fresh`:
/// overwritten in place where `old` has it, appended where it does not.
pub open spec fn rooms_put(
    old: Seq<ChatRoom>,
    new: Seq<ChatRoom>,
    jid: Seq<char>,
    nickname: Seq<char>,
) -> bool {
    if has_room(old, jid) {
        &&& new.len() == old.len()
        &&& forall|i: int|
            0 <= i < old.len() ==> if old[i].jid@ == jid {
                is_joined_room(new[i], jid, nickname)
            } else {
                new[i] == old[i]
            }
    } else {
        &&& new.len() == old.len() + 1
        &&& new.take(old.len() as int) == old
        &&& is_joined_room(new.last(), jid, nickname)
    }
}

/// `new` is `old` without the entry for `jid`.
pub open spec fn rooms_without(old: Seq<ChatRoom>, new: Seq<ChatRoom>, jid: Seq<char>) -> bool {
    if has_room(old, jid) {
        exists|i: int| 0 <= i < old.len() && old[i].jid@ == jid && new == old.remove(i)
    } else {
        new == old
    }
}

/// The contact that adding `jid` records.
pub open spec fn is_added_contact(
    c: Contact,
    jid: Seq<char>,
    name: Option<String>,
    groups: Seq<String>,
) -> bool {
    &&& c.jid@ == jid
    &&& c.name == name
    &&& c.subscription@ == "none"@
    &&& c.groups@ == groups
    &&& c.presence is None
}

/// `new` is `old` with the contact for `jid` set to the added one.
pub open spec fn contacts_put(
    old: Seq<Contact>,
    new: Seq<Contact>,
    jid: Seq<char>,
    name: Option<String>,
    groups: Seq<String>,
) -> bool {
    if has_contact(old, jid) {
        &&& new.len() == old.len()
        &&& forall|i: int|
            0 <= i < old.len() ==> if old[i].jid@ == jid {
                is_added_contact(new[i], jid, name, groups)
            } else {
                new[i] == old[i]
            }
    } else {
        &&& new.len() == old.len() + 1
        &&& new.take(old.len() as int) == old
        &&& is_added_contact(new.last(), jid, name, groups)
    }
}

/// `new` is `old` without the contact for `jid`.
pub open spec fn contacts_without(old: Seq<Contact>, new: Seq<Contact>, jid: Seq<char>) -> bool {
    if has_contact(old, jid) {
        exists|i: int| 0 <= i < old.len() && old[i].jid@ == jid && new == old.remove(i)
    } else {
        new == old
    }
}

/// The queue after emitting one event: with a subscriber it grows by one
/// event at its end, without one it stays as it was.
pub open spec fn emitted(open: bool, old: Seq<XmppEvent>, new: Seq<XmppEvent>) -> bool {
    if open {
        new.len() == old.len() + 1 && new.drop_last() == old
    } else {
        new == old
    }
}

/// Whether `e` announces a change of connection state to `what`.
pub open spec fn is_state_event(e: XmppEvent, what: Seq<char>) -> bool {
    e matches XmppEvent::ConnectionStateChanged(s) && s@ == what
}

/// Text of the error that operations report without a connection.
pub open spec fn not_connected(e: OpenFireError) -> bool {
    e matches OpenFireError::ConnectionError { message } && message@ == "Not connected to server"@
}

/// `b` is session `a` after a disconnect: not connected, no presence, the
/// state machine at `Disconnected`, roster and rooms emptied, settings kept,
/// and the change announced to a subscriber if there is one.
pub open spec fn is_disconnect_of(a: OpenFireClient, b: OpenFireClient) -> bool {
    &&& !b.connected
    &&& b.current_presence is None
    &&& b.auth_manager.state is Disconnected
    &&& b.auth_manager.config == a.auth_manager.config
    &&& b.config == a.config
    &&& b.contacts@.len() == 0
    &&& b.chat_rooms@.len() == 0
    &&& b.events_open == a.events_open
    &&& b.session_id is None
    &&& emitted(a.events_open, a.events@, b.events@)
    &&& a.events_open ==> is_state_event(b.events@.last(), "disconnected"@)
}

/// Whether sessions `a` and `b` are in the same state, leaving aside the
/// queue of events.
pub open spec fn same_session_state(a: OpenFireClient, b: OpenFireClient) -> bool {
    &&& a.config == b.config
    &&& a.auth_manager == b.auth_manager
    &&& a.connected == b.connected
    &&& a.current_presence == b.current_presence
    &&& a.contacts@ == b.contacts@
    &&& a.chat_rooms@ == b.chat_rooms@
    &&& a.events_open == b.events_open
    &&& a.session_id == b.session_id
}

/// Disconnecting a second time leaves the session in the state that the
/// first disconnect left it in.
pub proof fn lemma_disconnect_twice(a: OpenFireClient, b: OpenFireClient, c: OpenFireClient)
    requires
        is_disconnect_of(a, b),
        is_disconnect_of(b, c),
    ensures
        same_session_state(b, c),
{
    assert(b.contacts@ =~= c.contacts@);
    assert(b.chat_rooms@ =~= c.chat_rooms@);
}

/// Leaving a room that is not joined leaves the rooms as they were.
pub proof fn lemma_leave_unjoined_room(
    a: OpenFireClient,
    b: OpenFireClient,
    room: Seq<char>,
)
    requires
        !has_room(a.chat_rooms@, room),
        rooms_without(a.chat_rooms@, b.chat_rooms@, room),
    ensures
        b.chat_rooms@ == a.chat_rooms@,
{
}

/// Messaging session: authentication state, presence, roster, rooms, and
/// the queue of events waiting for the subscriber.
pub struct OpenFireClient {
    pub config: Config,
    pub auth_manager: AuthManager,
    pub connected: bool,
    pub current_presence: Option<Presence>,
    pub contacts: Vec<Contact>,
    pub chat_rooms: Vec<ChatRoom>,
    /// Whether a subscriber is installed; events emitted without one are dropped.
    pub events_open: bool,
    /// Events emitted and not yet handed out, oldest first.
    pub events: Vec<XmppEvent>,
    /// Identifier of the authenticated session, while connected.
    pub session_id: Option<String>,
}

impl OpenFireClient {
    /// The session's invariant: valid settings, connected exactly when
    /// authenticated, a presence exactly when connected, roster and rooms
    /// empty while disconnected, unique room and contact identifiers.
    pub open spec fn wf(&self) -> bool {
        &&& config_valid(self.config)
        &&& self.auth_manager.config == self.config
        &&& self.connected == self.auth_manager.state is Authenticated
        &&& (self.current_presence is Some <==> self.connected)
        &&& !self.connected ==> self.chat_rooms@.len() == 0 && self.contacts@.len() == 0
        &&& rooms_unique(self.chat_rooms@)
        &&& contacts_unique(self.contacts@)
    }

    /// A disconnected session with empty roster and rooms; fails on invalid
    /// settings.
    pub fn new(config: Config) -> (r: Result<OpenFireClient, OpenFireError>)
        ensures
            r is Ok <==> config_valid(config),
            r is Err ==> (r->Err_0 matches OpenFireError::ConfigError { message }
                && config_problem(config) == Some(message@)),
            r is Ok ==> {
                let c = r->Ok_0;
                &&& c.session_id is None
                &&& c.wf()
                &&& c.config == config
                &&& !c.connected
                &&& c.auth_manager.state is Disconnected
                &&& c.chat_rooms@.len() == 0
                &&& c.contacts@.len() == 0
                &&& !c.events_open
                &&& c.events@.len() == 0
            },
    {
        let auth_manager = match AuthManager::new(config.duplicate()) {
            Ok(m) => m,
            Err(e) => return Err(e),
        };
        Ok(
            OpenFireClient {
                config,
                auth_manager,
                connected: false,
                current_presence: None,
                contacts: Vec::new(),
                chat_rooms: Vec::new(),
                events_open: false,
                events: Vec::new(),
                session_id: None,
            },
        )
    }

    fn emit_event(&mut self, event: XmppEvent)
        ensures
            final(self).events@ == if old(self).events_open {
                old(self).events@.push(event)
            } else {
                old(self).events@
            },
            emitted(old(self).events_open, old(self).events@, final(self).events@),
            old(self).events_open ==> final(self).events@.last() == event,
            final(self).config == old(self).config,
            final(self).auth_manager == old(self).auth_manager,
            final(self).connected == old(self).connected,
            final(self).current_presence == old(self).current_presence,
            final(self).contacts == old(self).contacts,
            final(self).chat_rooms == old(self).chat_rooms,
            final(self).events_open == old(self).events_open,
            final(self).session_id == old(self).session_id,
    {
        if self.events_open {
            self.events.push(event);
            assert(self.events@.drop_last() =~= old(self).events@);
        }
    }

    /// Installs a subscriber: from now on emitted events are queued. A queue
    /// left by an earlier subscriber is discarded.
    pub fn open_event_queue(&mut self)
        ensures
            final(self).events_open,
            final(self).events@.len() == 0,
            final(self).config == old(self).config,
            final(self).auth_manager == old(self).auth_manager,
            final(self).connected == old(self).connected,
            final(self).current_presence == old(self).current_presence,
            final(self).contacts == old(self).contacts,
            final(self).chat_rooms == old(self).chat_rooms,
            final(self).session_id == old(self).session_id,
    {
        self.events_open = true;
        self.events = Vec::new();
    }

    /// Hands out the queued events, oldest first, and empties the queue.
    pub fn drain_events(&mut self) -> (r: Vec<XmppEvent>)
        ensures
            r@ == old(self).events@,
            final(self).events@.len() == 0,
            final(self).events_open == old(self).events_open,
            final(self).session_id == old(self).session_id,
            final(self).config == old(self).config,
            final(self).auth_manager == old(self).auth_manager,
            final(self).connected == old(self).connected,
            final(self).current_presence == old(self).current_presence,
            final(self).contacts == old(self).contacts,
            final(self).chat_rooms == old(self).chat_rooms,
    {
        let mut out: Vec<XmppEvent> = Vec::new();
        std::mem::swap(&mut out, &mut self.events);
        out
    }

    /// Whether the session is connected.
    pub fn is_connected(&self) -> (r: bool)
        ensures
            r == self.connected,
    {
        self.connected
    }

    /// The current presence, absent while disconnected.
    pub fn get_presence(&self) -> (r: Option<&Presence>)
        ensures
            r is Some <==> self.current_presence is Some,
            r is Some ==> *r->0 == self.current_presence->0,
    {
        match &self.current_presence {
            Some(p) => Some(p),
            None => None,
        }
    }

    /// The sender identifier: the presence's.
    fn own_jid(&self) -> (r: String)
        requires
            self.current_presence is Some,
        ensures
            r == self.current_presence->0.jid,
    {
        match &self.current_presence {
            Some(p) => p.jid.clone(),
            None => owned("unknown@localhost"),
        }
    }

    fn room_index(&self, jid: &str) -> (r: Option<usize>)
        ensures
            r is Some <==> has_room(self.chat_rooms@, jid@),
            r matches Some(i) ==> i < self.chat_rooms@.len() && self.chat_rooms@[i as int].jid@
                == jid@,
    {
        let mut i: usize = 0;
        while i < self.chat_rooms.len()
            invariant
                i <= self.chat_rooms@.len(),
                forall|j: int| 0 <= j < i ==> self.chat_rooms@[j].jid@ != jid@,
            decreases self.chat_rooms@.len() - i,
        {
            if same_text(self.chat_rooms[i].jid.as_str(), jid) {
                return Some(i);
            }
            i = i + 1;
        }
        None
    }

    fn contact_index(&self, jid: &str) -> (r: Option<usize>)
        ensures
            r is Some <==> has_contact(self.contacts@, jid@),
            r matches Some(i) ==> i < self.contacts@.len() && self.contacts@[i as int].jid@
                == jid@,
    {
        let mut i: usize = 0;
        while i < self.contacts.len()
            invariant
                i <= self.contacts@.len(),
                forall|j: int| 0 <= j < i ==> self.contacts@[j].jid@ != jid@,
            decreases self.contacts@.len() - i,
        {
            if same_text(self.contacts[i].jid.as_str(), jid) {
                return Some(i);
            }
            i = i + 1;
        }
        None
    }

    /// Connects with `credentials`, the exchange having taken `elapsed_ms`
    /// milliseconds. On success the session is connected with presence
    /// `Available` at the authenticated identifier and announces it. Malformed
    /// credentials change nothing; a rejection leaves the session
    /// disconnected and is reported as `AuthenticationFailed`.
    pub fn connect(&mut self, credentials: Credentials, elapsed_ms: u64) -> (r: Result<
        (),
        OpenFireError,
    >)
        requires
            old(self).wf(),
        ensures
            final(self).wf(),
            final(self).config == old(self).config,
            final(self).events_open == old(self).events_open,
            r is Ok ==> final(self).contacts == old(self).contacts && final(self).chat_rooms
                == old(self).chat_rooms,
            r is Ok <==> credentials_wellformed(credentials) && exchange_rejection(
                credentials,
                old(self).config.auth_timeout,
                elapsed_ms,
            ) is None,
            !credentials_wellformed(credentials) ==> *final(self) == *old(self) && (
            r->Err_0 matches OpenFireError::InvalidCredentials { message }
                && credentials_problem(credentials) == Some(message@)),
            credentials_wellformed(credentials) ==> match exchange_rejection(
                credentials,
                old(self).config.auth_timeout,
                elapsed_ms,
            ) {
                None => {
                    &&& final(self).connected
                    &&& final(self).auth_manager.state is Authenticated
                    &&& final(self).current_presence matches Some(p) && p.status
                        == PresenceStatus::Available && p.jid@ == jid_of(
                        credentials,
                        old(self).config.domain@,
                    ) && p.status_message is None && p.priority == 0
                    &&& emitted(old(self).events_open, old(self).events@, final(self).events@)
                    &&& old(self).events_open ==> is_state_event(
                        final(self).events@.last(),
                        "connected"@,
                    )
                    &&& final(self).session_id matches Some(t) && exists|n: nat|
                        t@ == "session_"@ + "uuid-"@ + hex(n)
                },
                Some(why) => {
                    &&& !final(self).connected
                    &&& final(self).current_presence is None
                    &&& final(self).auth_manager.state is Failed
                    &&& final(self).contacts@.len() == 0
                    &&& final(self).chat_rooms@.len() == 0
                    &&& final(self).session_id is None
                    &&& final(self).events == old(self).events
                    &&& r->Err_0 matches OpenFireError::AuthenticationFailed { message }
                        && message@ == "Authentication failed: "@ + why
                },
            },
    {
        let outcome = self.auth_manager.authenticate(credentials, elapsed_ms);
        match outcome {
            Err(e) => Err(e),
            Ok(res) => {
                if !res.success {
                    self.connected = false;
                    self.current_presence = None;
                    self.contacts = Vec::new();
                    self.chat_rooms = Vec::new();
                    self.session_id = None;
                    return Err(OpenFireError::AuthenticationFailed { message: res.message });
                }
                let jid = match res.full_jid {
                    Some(j) => j,
                    None => owned("unknown@localhost"),
                };
                self.connected = true;
                self.session_id = res.session_id;
                self.current_presence = Some(Presence::new(jid, PresenceStatus::Available));
                self.emit_event(XmppEvent::ConnectionStateChanged(owned("connected")));
                Ok(())
            },
        }
    }

    /// Ends the connection, whatever the state: disconnected, no presence,
    /// roster and rooms emptied, announced to the subscriber.
    pub fn disconnect(&mut self) -> (r: Result<(), OpenFireError>)
        requires
            old(self).wf(),
        ensures
            final(self).wf(),
            r is Ok,
            is_disconnect_of(*old(self), *final(self)),
    {
        let _ = self.auth_manager.disconnect();
        self.connected = false;
        self.current_presence = None;
        self.contacts = Vec::new();
        self.chat_rooms = Vec::new();
        self.session_id = None;
        self.emit_event(XmppEvent::ConnectionStateChanged(owned("disconnected")));
        Ok(())
    }

    /// Sends `body` to `to`; returns the new message's identifier, generated
    /// from `counter`, which then advances. One counter shared by all
    /// sessions makes identifiers distinct across the process.
    pub fn send_message(&self, counter: &mut MessageCounter, to: &str, body: &str) -> (r: Result<
        String,
        OpenFireError,
    >)
        requires
            self.wf(),
            old(counter).next < u64::MAX,
        ensures
            r is Ok <==> self.connected,
            r matches Ok(id) ==> id@ == message_id(old(counter).next as nat),
            r is Ok ==> final(counter).next == old(counter).next + 1,
            r matches Err(e) ==> not_connected(e) && *final(counter) == *old(counter),
    {
        if !self.connected {
            return Err(OpenFireError::ConnectionError { message: owned("Not connected to server") });
        }
        let from = self.own_jid();
        let id = counter.issue();
        let message = Message::compose(
            MessageType::Chat,
            id,
            from,
            owned(to),
            owned(body),
            current_timestamp(),
        );
        Ok(message.id)
    }

    /// Sends `body` to the joined room `room_jid`; returns the new message's
    /// identifier, generated from `counter`, which then advances.
    pub fn send_group_message(
        &self,
        counter: &mut MessageCounter,
        room_jid: &str,
        body: &str,
    ) -> (r: Result<String, OpenFireError>)
        requires
            self.wf(),
            old(counter).next < u64::MAX,
        ensures
            r is Ok <==> self.connected && has_room(self.chat_rooms@, room_jid@),
            r matches Ok(id) ==> id@ == message_id(old(counter).next as nat),
            r is Ok ==> final(counter).next == old(counter).next + 1,
            r is Err ==> *final(counter) == *old(counter),
            !self.connected ==> not_connected(r->Err_0),
            self.connected && !has_room(self.chat_rooms@, room_jid@) ==> (
            r->Err_0 matches OpenFireError::XmppProtocolError { message }
                && message@ == "Not joined to room: "@ + room_jid@),
    {
        if !self.connected {
            return Err(OpenFireError::ConnectionError { message: owned("Not connected to server") });
        }
        if self.room_index(room_jid).is_none() {
            return Err(
                OpenFireError::XmppProtocolError { message: join2("Not joined to room: ", room_jid) },
            );
        }
        let from = self.own_jid();
        let id = counter.issue();
        let message = Message::compose(
            MessageType::GroupChat,
            id,
            from,
            owned(room_jid),
            owned(body),
            current_timestamp(),
        );
        Ok(message.id)
    }

    /// Replaces the presence with `status` and `message`, at the same
    /// identifier, and announces it.
    pub fn set_presence(&mut self, status: PresenceStatus, message: Option<String>) -> (r: Result<
        (),
        OpenFireError,
    >)
        requires
            old(self).wf(),
        ensures
            final(self).wf(),
            r is Ok <==> old(self).connected,
            r is Err ==> not_connected(r->Err_0) && *final(self) == *old(self),
            r is Ok ==> {
                &&& final(self).current_presence matches Some(p) && p.jid
                    == old(self).current_presence->0.jid && p.status == status
                    && p.status_message == message && p.priority == 0
                &&& emitted(old(self).events_open, old(self).events@, final(self).events@)
                &&& old(self).events_open ==> final(self).events@.last() == XmppEvent::PresenceUpdated(
                    final(self).current_presence->0,
                )
                &&& final(self).config == old(self).config
                &&& final(self).auth_manager == old(self).auth_manager
                &&& final(self).connected == old(self).connected
                &&& final(self).contacts == old(self).contacts
                &&& final(self).chat_rooms == old(self).chat_rooms
                &&& final(self).events_open == old(self).events_open
                &&& final(self).session_id == old(self).session_id
            },
    {
        if !self.connected {
            return Err(OpenFireError::ConnectionError { message: owned("Not connected to server") });
        }
        let jid = self.own_jid();
        let mut presence = Presence::new(jid, status);
        match message {
            Some(m) => {
                presence = presence.with_message(m);
            },
            None => {},
        }
        let announced = presence.duplicate();
        self.current_presence = Some(presence);
        self.emit_event(XmppEvent::PresenceUpdated(announced));
        Ok(())
    }

    /// Joins `room_jid` as `nickname`: records the room as joined with
    /// `nickname` as its one known participant, replacing an earlier entry.
    pub fn join_room(&mut self, room_jid: &str, nickname: &str) -> (r: Result<(), OpenFireError>)
        requires
            old(self).wf(),
        ensures
            final(self).wf(),
            r is Ok <==> old(self).connected,
            r is Err ==> not_connected(r->Err_0) && *final(self) == *old(self),
            r is Ok ==> {
                &&& rooms_put(old(self).chat_rooms@, final(self).chat_rooms@, room_jid@, nickname@)
                &&& final(self).config == old(self).config
                &&& final(self).auth_manager == old(self).auth_manager
                &&& final(self).connected == old(self).connected
                &&& final(self).current_presence == old(self).current_presence
                &&& final(self).contacts == old(self).contacts
                &&& final(self).events_open == old(self).events_open
                &&& final(self).session_id == old(self).session_id
                &&& final(self).events == old(self).events
            },
    {
        if !self.connected {
            return Err(OpenFireError::ConnectionError { message: owned("Not connected to server") });
        }
        let mut participants: Vec<String> = Vec::new();
        participants.push(owned(nickname));
        let room = ChatRoom {
            jid: owned(room_jid),
            name: before_at(room_jid),
            description: None,
            subject: None,
            participants,
            joined: true,
        };
        match self.room_index(room_jid) {
            Some(i) => {
                self.chat_rooms.set(i, room);
                proof {
                    let o = old(self).chat_rooms@;
                    assert(forall|k: int| 0 <= k < o.len() && k != i ==> o[k].jid@ != room_jid@);
                    assert(is_joined_room(self.chat_rooms@[i as int], room_jid@, nickname@));
                    assert(rooms_unique(self.chat_rooms@));
                }
            },
            None => {
                self.chat_rooms.push(room);
                proof {
                    let o = old(self).chat_rooms@;
                    assert(self.chat_rooms@.take(o.len() as int) =~= o);
                    assert(forall|k: int| 0 <= k < o.len() ==> o[k].jid@ != room_jid@);
                    assert(forall|k: int|
                        0 <= k < o.len() ==> self.chat_rooms@[k] == o[k]);
                    assert(rooms_unique(self.chat_rooms@));
                }
            },
        }
        Ok(())
    }

    /// Leaves `room_jid`: its entry is removed; leaving a room never joined
    /// changes nothing.
    pub fn leave_room(&mut self, room_jid: &str) -> (r: Result<(), OpenFireError>)
        requires
            old(self).wf(),
        ensures
            final(self).wf(),
            r is Ok <==> old(self).connected,
            r is Err ==> not_connected(r->Err_0) && *final(self) == *old(self),
            r is Ok ==> {
                &&& rooms_without(old(self).chat_rooms@, final(self).chat_rooms@, room_jid@)
                &&& final(self).config == old(self).config
                &&& final(self).auth_manager == old(self).auth_manager
                &&& final(self).connected == old(self).connected
                &&& final(self).current_presence == old(self).current_presence
                &&& final(self).contacts == old(self).contacts
                &&& final(self).events_open == old(self).events_open
                &&& final(self).session_id == old(self).session_id
                &&& final(self).events == old(self).events
            },
    {
        if !self.connected {
            return Err(OpenFireError::ConnectionError { message: owned("Not connected to server") });
        }
        match self.room_index(room_jid) {
            Some(i) => {
                self.chat_rooms.remove(i);
                proof {
                    let o = old(self).chat_rooms@;
                    assert(self.chat_rooms@ == o.remove(i as int));
                    assert forall|a: int, b: int|
                        0 <= a < b < self.chat_rooms@.len() implies self.chat_rooms@[a].jid@
                        != self.chat_rooms@[b].jid@ by {
                        let a2 = if a < i { a } else { a + 1 };
                        let b2 = if b < i { b } else { b + 1 };
                        assert(self.chat_rooms@[a] == o[a2]);
                        assert(self.chat_rooms@[b] == o[b2]);
                    }
                }
            },
            None => {},
        }
        Ok(())
    }

    /// The rooms, in no particular order.
    pub fn get_chat_rooms(&self) -> (r: Vec<&ChatRoom>)
        ensures
            r@.len() == self.chat_rooms@.len(),
            forall|i: int| 0 <= i < r@.len() ==> *r@[i] == self.chat_rooms@[i],
    {
        let mut r: Vec<&ChatRoom> = Vec::new();
        let mut i: usize = 0;
        while i < self.chat_rooms.len()
            invariant
                i <= self.chat_rooms@.len(),
                r@.len() == i,
                forall|k: int| 0 <= k < i ==> *r@[k] == self.chat_rooms@[k],
            decreases self.chat_rooms@.len() - i,
        {
            r.push(&self.chat_rooms[i]);
            i = i + 1;
        }
        r
    }

    /// Adds `jid` to the roster, replacing an earlier entry, and announces
    /// the new entry.
    pub fn add_contact(&mut self, jid: &str, name: Option<String>, groups: Vec<String>) -> (r:
        Result<(), OpenFireError>)
        requires
            old(self).wf(),
        ensures
            final(self).wf(),
            r is Ok <==> old(self).connected,
            r is Err ==> not_connected(r->Err_0) && *final(self) == *old(self),
            r is Ok ==> {
                &&& contacts_put(
                    old(self).contacts@,
                    final(self).contacts@,
                    jid@,
                    name,
                    groups@,
                )
                &&& emitted(old(self).events_open, old(self).events@, final(self).events@)
                &&& old(self).events_open ==> (final(self).events@.last() matches XmppEvent::ContactUpdated(c)
                    && is_added_contact(c, jid@, name, groups@))
                &&& final(self).config == old(self).config
                &&& final(self).auth_manager == old(self).auth_manager
                &&& final(self).connected == old(self).connected
                &&& final(self).current_presence == old(self).current_presence
                &&& final(self).chat_rooms == old(self).chat_rooms
                &&& final(self).events_open == old(self).events_open
                &&& final(self).session_id == old(self).session_id
            },
    {
        if !self.connected {
            return Err(OpenFireError::ConnectionError { message: owned("Not connected to server") });
        }
        let contact = Contact {
            jid: owned(jid),
            name,
            subscription: owned("none"),
            groups,
            presence: None,
        };
        let announced = contact.duplicate();
        match self.contact_index(jid) {
            Some(i) => {
                self.contacts.set(i, contact);
                proof {
                    let o = old(self).contacts@;
                    assert(forall|k: int| 0 <= k < o.len() && k != i ==> o[k].jid@ != jid@);
                    assert(contacts_unique(self.contacts@));
                }
            },
            None => {
                self.contacts.push(contact);
                proof {
                    let o = old(self).contacts@;
                    assert(self.contacts@.take(o.len() as int) =~= o);
                    assert(forall|k: int| 0 <= k < o.len() ==> o[k].jid@ != jid@);
                    assert(forall|k: int| 0 <= k < o.len() ==> self.contacts@[k] == o[k]);
                    assert(contacts_unique(self.contacts@));
                }
            },
        }
        self.emit_event(XmppEvent::ContactUpdated(announced));
        Ok(())
    }

    /// Removes `jid` from the roster; removing an absent contact changes
    /// nothing.
    pub fn remove_contact(&mut self, jid: &str) -> (r: Result<(), OpenFireError>)
        requires
            old(self).wf(),
        ensures
            final(self).wf(),
            r is Ok <==> old(self).connected,
            r is Err ==> not_connected(r->Err_0) && *final(self) == *old(self),
            r is Ok ==> {
                &&& contacts_without(old(self).contacts@, final(self).contacts@, jid@)
                &&& final(self).config == old(self).config
                &&& final(self).auth_manager == old(self).auth_manager
                &&& final(self).connected == old(self).connected
                &&& final(self).current_presence == old(self).current_presence
                &&& final(self).chat_rooms == old(self).chat_rooms
                &&& final(self).events_open == old(self).events_open
                &&& final(self).session_id == old(self).session_id
                &&& final(self).events == old(self).events
            },
    {
        if !self.connected {
            return Err(OpenFireError::ConnectionError { message: owned("Not connected to server") });
        }
        match self.contact_index(jid) {
            Some(i) => {
                self.contacts.remove(i);
                proof {
                    let o = old(self).contacts@;
                    assert(self.contacts@ == o.remove(i as int));
                    assert forall|a: int, b: int|
                        0 <= a < b < self.contacts@.len() implies self.contacts@[a].jid@
                        != self.contacts@[b].jid@ by {
                        let a2 = if a < i { a } else { a + 1 };
                        let b2 = if b < i { b } else { b + 1 };
                        assert(self.contacts@[a] == o[a2]);
                        assert(self.contacts@[b] == o[b2]);
                    }
                }
            },
            None => {},
        }
        Ok(())
    }

    /// The roster, in no particular order.
    pub fn get_contacts(&self) -> (r: Vec<&Contact>)
        ensures
            r@.len() == self.contacts@.len(),
            forall|i: int| 0 <= i < r@.len() ==> *r@[i] == self.contacts@[i],
    {
        let mut r: Vec<&Contact> = Vec::new();
        let mut i: usize = 0;
        while i < self.contacts.len()
            invariant
                i <= self.contacts@.len(),
                r@.len() == i,
                forall|k: int| 0 <= k < i ==> *r@[k] == self.contacts@[k],
            decreases self.contacts@.len() - i,
        {
            r.push(&self.contacts[i]);
            i = i + 1;
        }
        r
    }

    /// Server facts as (key, value) pairs: server, domain, port, version.
    pub fn get_server_info(&self) -> (r: Result<Vec<(String, String)>, OpenFireError>)
        ensures
            r is Ok <==> self.connected,
            r matches Err(e) ==> not_connected(e),
            r matches Ok(v) ==> {
                &&& v@.len() == 4
                &&& v@[0].0@ == "server"@ && v@[0].1@ == self.config.server@
                &&& v@[1].0@ == "domain"@ && v@[1].1@ == self.config.domain@
                &&& v@[2].0@ == "port"@ && v@[2].1@ == decimal(self.config.port as nat)
                &&& v@[3].0@ == "version"@ && v@[3].1@ == "OpenFire 4.7.0"@
            },
    {
        if !self.connected {
            return Err(OpenFireError::ConnectionError { message: owned("Not connected to server") });
        }
        let mut port = String::new();
        append_radix(&mut port, self.config.port as u128, 10);
        let mut v: Vec<(String, String)> = Vec::new();
        v.push((owned("server"), self.config.server.clone()));
        v.push((owned("domain"), self.config.domain.clone()));
        v.push((owned("port"), port));
        v.push((owned("version"), owned("OpenFire 4.7.0")));
        Ok(v)
    }
}

/// The report of a connection attempt for a host: the outcome of
/// `connect`, with the session's identifier and presence identifier read
/// after it, and the attempt's duration.
pub fn connect_report(
    outcome: Result<(), OpenFireError>,
    jid: Option<String>,
    session_id: Option<String>,
    elapsed_ms: u64,
) -> (r: AuthResult)
    ensures
        r.auth_time_ms == elapsed_ms,
        r.success <==> outcome is Ok && jid is Some,
        outcome is Ok && jid is Some ==> {
            &&& r.message@ == "Authentication successful"@
            &&& r.full_jid == jid
            &&& r.session_id == session_id
        },
        outcome is Ok && jid is None ==> r.message@ == "Connected without presence"@
            && r.full_jid is None && r.session_id is None,
        outcome matches Err(e) ==> r.message@ == error_text(e) && r.full_jid is None
            && r.session_id is None,
{
    match outcome {
        Ok(()) => match jid {
            Some(j) => AuthResult::success(j, session_id, elapsed_ms),
            None => AuthResult::failure(owned("Connected without presence"), elapsed_ms),
        },
        Err(e) => AuthResult::failure(e.describe(), elapsed_ms),
    }
}

/// Status text as a host gives it: an empty text means none.
pub fn status_text(message: Option<String>) -> (r: Option<String>)
    ensures
        match message {
            Some(m) => if m@.len() == 0 {
                r is None
            } else {
                r == Some(m)
            },
            None => r is None,
        },
{
    match message {
        Some(m) => {
            if m.as_str().unicode_len() == 0 {
                None
            } else {
                Some(m)
            }
        },
        None => None,
    }
}

} // verus!
