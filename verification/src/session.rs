//! The session store maps a chat to the thread of its conversation. The store
//! itself lives outside the process and keeps JSON values; this module says
//! what a stored value means and how a thread identifier is stored.
use std::collections::HashMap;
use vstd::prelude::*;
use crate::json::{json_string, value_as_str, value_from_string};

verus! {

broadcast use vstd::std_specs::hash::group_hash_axioms;

/// The session store as contracts see it: for each chat with a session, the
/// identifier of its thread. A chat has at most one.
pub type Sessions = Map<i64, Seq<char>>;

/// What the session store holds for a chat.
#[derive(Clone, Debug, PartialEq, Eq)]
pub enum Lookup {
    /// The chat has no session.
    Absent,
    /// The chat's session, by the identifier of its thread.
    Thread(String),
    /// The store holds a value for the chat that is no thread identifier.
    Invalid,
}

/// A lookup as contracts see it.
pub enum LookupView {
    Absent,
    Thread(Seq<char>),
    Invalid,
}

impl View for Lookup {
    type V = LookupView;

    open spec fn view(&self) -> LookupView {
        match *self {
            Lookup::Absent => LookupView::Absent,
            Lookup::Thread(id) => LookupView::Thread(id@),
            Lookup::Invalid => LookupView::Invalid,
        }
    }
}

/// What a store answers when it is asked for a chat.
pub open spec fn lookup_in(sessions: Sessions, chat_id: i64) -> LookupView {
    if sessions.dom().contains(chat_id) {
        LookupView::Thread(sessions[chat_id])
    } else {
        LookupView::Absent
    }
}

/// A session store in memory, for a driver that has no durable one. It keeps
/// what the durable store keeps, and forgets it when the process ends.
pub struct SessionTable {
    threads: HashMap<i64, String>,
}

impl View for SessionTable {
    type V = Sessions;

    closed spec fn view(&self) -> Sessions {
        self.threads@.map_values(|id: String| id@)
    }
}

impl SessionTable {
    /// A store without sessions.
    pub fn new() -> (table: SessionTable)
        ensures
            table@ == Sessions::empty(),
    {
        let table = SessionTable { threads: HashMap::new() };
        assert(table@ =~= Sessions::empty());
        table
    }

    /// The session of a chat, if it has one.
    pub fn get(&self, chat_id: i64) -> (lookup: Lookup)
        ensures
            lookup@ == lookup_in(self@, chat_id),
    {
        match self.threads.get(&chat_id) {
            Some(thread_id) => Lookup::Thread(thread_id.clone()),
            None => Lookup::Absent,
        }
    }

    /// Maps a chat to a thread. A mapping that the chat had is replaced.
    pub fn set(&mut self, chat_id: i64, thread_id: String)
        ensures
            final(self)@ == old(self)@.insert(chat_id, thread_id@),
    {
        self.threads.insert(chat_id, thread_id);
        assert(self@ =~= old(self)@.insert(chat_id, thread_id@));
    }

    /// Removes the mapping of a chat. Without one, nothing changes.
    pub fn delete(&mut self, chat_id: i64)
        ensures
            final(self)@ == old(self)@.remove(chat_id),
    {
        self.threads.remove(&chat_id);
        assert(self@ =~= old(self)@.remove(chat_id));
    }
}

/// The meaning of what the store gave for a chat: no value is no session, a
/// JSON string is the thread's identifier, and any other value is invalid.
pub open spec fn stored_lookup(stored: Option<serde_json::Value>) -> LookupView {
    match stored {
        None => LookupView::Absent,
        Some(value) => match json_string(value) {
            Some(id) => LookupView::Thread(id),
            None => LookupView::Invalid,
        },
    }
}

/// Reads what the store gave for a chat.
pub fn decode_session(stored: Option<serde_json::Value>) -> (lookup: Lookup)
    ensures
        lookup@ == stored_lookup(stored),
{
    match stored {
        None => Lookup::Absent,
        Some(value) => match value_as_str(&value) {
            Some(id) => Lookup::Thread(id.to_owned()),
            None => Lookup::Invalid,
        },
    }
}

/// The value under which a thread identifier is stored: a JSON string of it.
pub fn encode_session(thread_id: String) -> (value: serde_json::Value)
    ensures
        json_string(value) == Some(thread_id@),
        stored_lookup(Some(value)) == LookupView::Thread(thread_id@),
{
    value_from_string(thread_id)
}

/// A chat that was mapped to a thread is found with that thread, and the
/// mappings of all other chats are as they were.
pub proof fn lemma_lookup_after_set(
    sessions: Sessions,
    chat_id: i64,
    thread_id: Seq<char>,
    other: i64,
)
    ensures
        lookup_in(sessions.insert(chat_id, thread_id), chat_id) == LookupView::Thread(thread_id),
        other != chat_id ==> lookup_in(sessions.insert(chat_id, thread_id), other) == lookup_in(
            sessions,
            other,
        ),
{
}

/// A chat whose mapping was removed has no session, and the mappings of all
/// other chats are as they were.
pub proof fn lemma_lookup_after_delete(sessions: Sessions, chat_id: i64, other: i64)
    ensures
        lookup_in(sessions.remove(chat_id), chat_id) == LookupView::Absent,
        other != chat_id ==> lookup_in(sessions.remove(chat_id), other) == lookup_in(sessions, other),
{
}

/// A stored value is read as a session exactly when it is a JSON string, and
/// then the session's thread is that string.
pub proof fn lemma_stored_session(value: serde_json::Value, thread_id: Seq<char>)
    ensures
        stored_lookup(Some(value)) == LookupView::Thread(thread_id) <==> json_string(value)
            == Some(thread_id),
{
}

} // verus!
