//! The per-chat record of live messages.
use std::collections::HashMap;
use vstd::prelude::*;

verus! {

broadcast use vstd::std_specs::hash::group_hash_axioms;

/// Identifies a conversation.
pub type ChatId = i64;

/// Identifies one sent message.
pub type MessageRef = i32;

/// What a chat shows in a model of the store: the empty sequence if unknown.
pub open spec fn live_of(m: Map<ChatId, Seq<MessageRef>>, chat: ChatId) -> Seq<MessageRef> {
    if m.contains_key(chat) {
        m[chat]
    } else {
        Seq::empty()
    }
}

/// For each chat, the ordered messages that make up its current screen.
pub struct ChatStateStore {
    chats: HashMap<ChatId, Vec<MessageRef>>,
}

impl View for ChatStateStore {
    type V = Map<ChatId, Seq<MessageRef>>;

    closed spec fn view(&self) -> Map<ChatId, Seq<MessageRef>> {
        self.chats@.map_values(|v: Vec<MessageRef>| v@)
    }
}

fn copy_refs(v: &Vec<MessageRef>) -> (r: Vec<MessageRef>)
    ensures
        r@ == v@,
{
    let mut r: Vec<MessageRef> = Vec::new();
    let mut i: usize = 0;
    while i < v.len()
        invariant
            i <= v.len(),
            r@ == v@.subrange(0, i as int),
        decreases v.len() - i,
    {
        r.push(v[i]);
        i = i + 1;
        assert(r@ =~= v@.subrange(0, i as int));
    }
    assert(v@.subrange(0, v.len() as int) =~= v@);
    r
}

impl ChatStateStore {
    /// An empty store: every chat shows nothing.
    pub fn new() -> (r: ChatStateStore)
        ensures
            r@ == Map::<ChatId, Seq<MessageRef>>::empty(),
    {
        let r = ChatStateStore { chats: HashMap::new() };
        assert(r@ =~= Map::<ChatId, Seq<MessageRef>>::empty());
        r
    }

    /// The live messages of a chat; empty for a chat never seen.
    pub fn get(&self, chat: ChatId) -> (r: Vec<MessageRef>)
        ensures
            r@ == live_of(self@, chat),
    {
        match self.chats.get(&chat) {
            Some(v) => copy_refs(v),
            None => Vec::new(),
        }
    }

    /// Replaces the live messages of a chat as a whole.
    pub fn replace(&mut self, chat: ChatId, refs: Vec<MessageRef>)
        ensures
            final(self)@ == old(self)@.insert(chat, refs@),
    {
        let ghost r = refs@;
        self.chats.insert(chat, refs);
        assert(self@ =~= old(self)@.insert(chat, r));
    }

    /// Appends one message to the live messages of a chat.
    pub fn push(&mut self, chat: ChatId, m: MessageRef)
        ensures
            final(self)@ == old(self)@.insert(chat, live_of(old(self)@, chat).push(m)),
    {
        let mut refs = self.get(chat);
        refs.push(m);
        self.replace(chat, refs);
    }
}

} // verus!
