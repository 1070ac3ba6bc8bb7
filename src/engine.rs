//! The navigation state machine: from an event to the messages to retire,
//! the screen to render, and the record of what was rendered.
use vstd::prelude::*;

use crate::screen::{destination, resolve, Event, ScreenId};
use crate::store::{live_of, ChatId, ChatStateStore, MessageRef};

verus! {

/// The store once a transition of `chat` has begun: the chat shows nothing.
pub open spec fn cleared(m: Map<ChatId, Seq<MessageRef>>, chat: ChatId) -> Map<
    ChatId,
    Seq<MessageRef>,
> {
    m.insert(chat, Seq::empty())
}

/// The store once message `r` of `chat` has been recorded.
pub open spec fn recorded(m: Map<ChatId, Seq<MessageRef>>, chat: ChatId, r: MessageRef) -> Map<
    ChatId,
    Seq<MessageRef>,
> {
    m.insert(chat, live_of(m, chat).push(r))
}

/// The store once the messages `rs` of `chat` have been recorded in order.
pub open spec fn recorded_all(
    m: Map<ChatId, Seq<MessageRef>>,
    chat: ChatId,
    rs: Seq<MessageRef>,
) -> Map<ChatId, Seq<MessageRef>>
    decreases rs.len(),
{
    if rs.len() == 0 {
        m
    } else {
        recorded(recorded_all(m, chat, rs.drop_last()), chat, rs.last())
    }
}

/// A transition in flight for one chat.
///
/// The caller deletes each message of `stale` (a failed delete is ignored),
/// acknowledges the interaction when `acknowledge` is set, sends the messages
/// that render `screen`, and records each one that was sent.
#[derive(Debug)]
pub struct Transition {
    pub chat: ChatId,
    pub screen: ScreenId,
    pub stale: Vec<MessageRef>,
    pub acknowledge: bool,
    pub produced: Vec<MessageRef>,
}

/// Owns the store of live messages and applies transitions to it.
pub struct NavigationEngine {
    store: ChatStateStore,
}

impl View for NavigationEngine {
    type V = Map<ChatId, Seq<MessageRef>>;

    closed spec fn view(&self) -> Map<ChatId, Seq<MessageRef>> {
        self.store@
    }
}

impl NavigationEngine {
    /// An engine with no chat showing anything.
    pub fn new() -> (r: NavigationEngine)
        ensures
            r@ == Map::<ChatId, Seq<MessageRef>>::empty(),
    {
        NavigationEngine { store: ChatStateStore::new() }
    }

    /// The messages that a chat currently shows.
    pub fn live(&self, chat: ChatId) -> (r: Vec<MessageRef>)
        ensures
            r@ == live_of(self@, chat),
    {
        self.store.get(chat)
    }

    /// Starts the transition of `chat` for `event`.
    ///
    /// An unknown payload changes nothing and yields `None`. Otherwise the
    /// transition holds the messages to retire, and the chat shows nothing
    /// until the new screen's messages are recorded.
    pub fn begin(&mut self, chat: ChatId, event: &Event) -> (r: Option<Transition>)
        ensures
            r is None <==> destination(*event) is None,
            r is None ==> final(self)@ == old(self)@,
            r matches Some(t) ==> {
                &&& t.chat == chat
                &&& destination(*event) == Some(t.screen)
                &&& t.stale@ == live_of(old(self)@, chat)
                &&& t.acknowledge == (*event is ButtonPress)
                &&& t.produced@ == Seq::<MessageRef>::empty()
                &&& final(self)@ == cleared(old(self)@, chat)
            },
    {
        match resolve(event) {
            None => None,
            Some(screen) => {
                let stale = self.store.get(chat);
                self.store.replace(chat, Vec::new());
                let acknowledge = match event {
                    Event::StartCommand => false,
                    Event::ButtonPress(_) => true,
                };
                Some(Transition { chat, screen, stale, acknowledge, produced: Vec::new() })
            },
        }
    }

    /// Records a message that was sent while rendering the transition's screen.
    pub fn record(&mut self, t: &mut Transition, m: MessageRef)
        ensures
            final(t).chat == old(t).chat,
            final(t).screen == old(t).screen,
            final(t).stale@ == old(t).stale@,
            final(t).acknowledge == old(t).acknowledge,
            final(t).produced@ == old(t).produced@.push(m),
            final(self)@ == recorded(old(self)@, old(t).chat, m),
            live_of(old(self)@, old(t).chat) == old(t).produced@ ==> live_of(final(self)@, old(t).chat)
                == final(t).produced@,
    {
        self.store.push(t.chat, m);
        t.produced.push(m);
    }
}

} // verus!
