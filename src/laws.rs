//! Laws of navigation, stated over the models that the operations' contracts use.
use vstd::prelude::*;

use crate::catalog::{book_text, render_spec, Outgoing, UNAVAILABLE_TEXT};
use crate::keyboard::Keyboard;
use crate::engine::{cleared, recorded_all};
use crate::screen::{destination, payload_screen, BookKey, Event, ScreenId};
use crate::store::{live_of, ChatId, MessageRef};

verus! {

/// Once a transition of `chat` has begun and the messages `rs` were recorded,
/// the chat shows exactly `rs`: never a mix with an earlier screen.
pub proof fn lemma_live_is_latest_render(
    m: Map<ChatId, Seq<MessageRef>>,
    chat: ChatId,
    rs: Seq<MessageRef>,
)
    ensures
        live_of(recorded_all(cleared(m, chat), chat, rs), chat) == rs,
    decreases rs.len(),
{
    if rs.len() > 0 {
        lemma_live_is_latest_render(m, chat, rs.drop_last());
        assert(rs.drop_last().push(rs.last()) =~= rs);
    } else {
        assert(rs =~= Seq::<MessageRef>::empty());
    }
}

/// A transition of one chat leaves what every other chat shows untouched.
pub proof fn lemma_other_chats_untouched(
    m: Map<ChatId, Seq<MessageRef>>,
    chat: ChatId,
    other: ChatId,
    rs: Seq<MessageRef>,
)
    requires
        chat != other,
    ensures
        live_of(recorded_all(cleared(m, chat), chat, rs), other) == live_of(m, other),
    decreases rs.len(),
{
    if rs.len() > 0 {
        lemma_other_chats_untouched(m, chat, other, rs.drop_last());
    }
}

/// The start command leads to the welcome screen from any state, and a second
/// start retires exactly the messages that the first one rendered.
pub proof fn lemma_restart_retires_previous_render(
    m: Map<ChatId, Seq<MessageRef>>,
    chat: ChatId,
    rs: Seq<MessageRef>,
)
    ensures
        destination(Event::StartCommand) == Some(ScreenId::Welcome),
        live_of(recorded_all(cleared(m, chat), chat, rs), chat) == rs,
{
    lemma_live_is_latest_render(m, chat, rs);
}

/// A payload outside the known tokens leads nowhere, so the transition never
/// starts and nothing is deleted or sent.
pub proof fn lemma_unknown_payload_leads_nowhere(p: Seq<char>)
    requires
        p != "ready"@,
        p != "back"@,
        p != "book1"@,
        p != "book2"@,
        p != "about_project"@,
    ensures
        payload_screen(p) is None,
{
}

/// Without its file, a book's screen is its description and the
/// "unavailable" notice, with no document sent; once both were recorded the
/// chat shows exactly those two messages.
pub proof fn lemma_missing_asset_fallback(
    k: BookKey,
    m: Map<ChatId, Seq<MessageRef>>,
    chat: ChatId,
    description: MessageRef,
    notice: MessageRef,
)
    ensures
        render_spec(ScreenId::BookDetail(k), false) == seq![
            Outgoing::Text { text: book_text(k), keyboard: Some(Keyboard::Back) },
            Outgoing::Text { text: UNAVAILABLE_TEXT, keyboard: None },
        ],
        forall|i: int|
            0 <= i < render_spec(ScreenId::BookDetail(k), false).len() ==> !(
            #[trigger] render_spec(ScreenId::BookDetail(k), false)[i] is Document),
        live_of(recorded_all(cleared(m, chat), chat, seq![description, notice]), chat) == seq![
            description,
            notice,
        ],
{
    lemma_live_is_latest_render(m, chat, seq![description, notice]);
}

} // verus!
