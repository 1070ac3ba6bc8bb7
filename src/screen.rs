//! Screens, inbound events and the decoding of button payloads.
use vstd::prelude::*;

verus! {

/// A book of the static catalog.
#[derive(Clone, Copy, Debug, PartialEq, Eq, Structural)]
pub enum BookKey {
    Book1,
    Book2,
}

/// The closed set of screens a chat can show.
#[derive(Clone, Copy, Debug, PartialEq, Eq, Structural)]
pub enum ScreenId {
    Welcome,
    Catalog,
    BookDetail(BookKey),
    About,
}

/// An inbound event of one chat.
#[derive(Debug)]
pub enum Event {
    StartCommand,
    ButtonPress(String),
}

/// The screen a button payload leads to, or `None` for an unknown payload.
pub open spec fn payload_screen(p: Seq<char>) -> Option<ScreenId> {
    if p == "ready"@ || p == "back"@ {
        Some(ScreenId::Catalog)
    } else if p == "book1"@ {
        Some(ScreenId::BookDetail(BookKey::Book1))
    } else if p == "book2"@ {
        Some(ScreenId::BookDetail(BookKey::Book2))
    } else if p == "about_project"@ {
        Some(ScreenId::About)
    } else {
        None
    }
}

/// The screen an event leads to; the start command always resets to `Welcome`.
pub open spec fn destination(e: Event) -> Option<ScreenId> {
    match e {
        Event::StartCommand => Some(ScreenId::Welcome),
        Event::ButtonPress(p) => payload_screen(p@),
    }
}

fn same_text(s: &String, lit: &str) -> (r: bool)
    ensures
        r == (s@ == lit@),
{
    let t = lit.to_owned();
    s.eq(&t)
}

/// Decodes a button payload into the screen it leads to.
pub fn decode_payload(payload: &str) -> (r: Option<ScreenId>)
    ensures
        r == payload_screen(payload@),
{
    let p = payload.to_owned();
    if same_text(&p, "ready") || same_text(&p, "back") {
        Some(ScreenId::Catalog)
    } else if same_text(&p, "book1") {
        Some(ScreenId::BookDetail(BookKey::Book1))
    } else if same_text(&p, "book2") {
        Some(ScreenId::BookDetail(BookKey::Book2))
    } else if same_text(&p, "about_project") {
        Some(ScreenId::About)
    } else {
        None
    }
}

/// Resolves the destination screen of an event.
pub fn resolve(event: &Event) -> (r: Option<ScreenId>)
    ensures
        r == destination(*event),
{
    match event {
        Event::StartCommand => Some(ScreenId::Welcome),
        Event::ButtonPress(p) => decode_payload(p.as_str()),
    }
}

} // verus!
