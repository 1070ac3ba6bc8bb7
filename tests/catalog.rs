use teloxide::types::{InlineKeyboardButtonKind, InlineKeyboardMarkup};
use tg_bot_rust::catalog::{
    asset_path, render, Outgoing,
    ABOUT_TEXT, BANNER_PATH, BOOK1_PATH, BOOK2_CAPTION, BOOK2_PATH, BOOK2_TEXT, CATALOG_TEXT,
    WELCOME_CAPTION, WELCOME_FALLBACK,
};
use tg_bot_rust::keyboard::{back_keyboard, keyboard_markup, main_keyboard, Keyboard};
use tg_bot_rust::screen::{decode_payload, resolve, BookKey, Event, ScreenId};
use tg_bot_rust::store::ChatStateStore;

fn pairs(m: &InlineKeyboardMarkup) -> Vec<Vec<(String, String)>> {
    m.inline_keyboard
        .iter()
        .map(|r| {
            r.iter()
                .map(|b| match &b.kind {
                    InlineKeyboardButtonKind::CallbackData(d) => (b.text.clone(), d.clone()),
                    other => panic!("not a callback button: {:?}", other),
                })
                .collect()
        })
        .collect()
}

fn expect(rows: Vec<Vec<(&str, &str)>>) -> Vec<Vec<(String, String)>> {
    rows.into_iter()
        .map(|r| r.into_iter().map(|(l, p)| (l.to_string(), p.to_string())).collect())
        .collect()
}

#[test]
fn payloads_decode_to_screens() {
    assert_eq!(decode_payload("ready"), Some(ScreenId::Catalog));
    assert_eq!(decode_payload("back"), Some(ScreenId::Catalog));
    assert_eq!(decode_payload("book1"), Some(ScreenId::BookDetail(BookKey::Book1)));
    assert_eq!(decode_payload("book2"), Some(ScreenId::BookDetail(BookKey::Book2)));
    assert_eq!(decode_payload("about_project"), Some(ScreenId::About));
    assert_eq!(decode_payload("xyz"), None);
    assert_eq!(decode_payload("book3"), None);
    assert_eq!(decode_payload(""), None);
}

#[test]
fn start_always_resolves_to_welcome() {
    assert_eq!(resolve(&Event::StartCommand), Some(ScreenId::Welcome));
    assert_eq!(resolve(&Event::ButtonPress("back".to_string())), Some(ScreenId::Catalog));
    assert_eq!(resolve(&Event::ButtonPress("/start".to_string())), None);
}

#[test]
fn main_keyboard_lists_books_then_project() {
    assert_eq!(
        pairs(&main_keyboard()),
        expect(vec![
            vec![("📕 Управляй или подчиняйся", "book1"), ("📙 Код Денег", "book2")],
            vec![("ℹ️ О проекте", "about_project")],
        ])
    );
}

#[test]
fn back_and_start_keyboards() {
    assert_eq!(pairs(&back_keyboard()), expect(vec![vec![("🔙 Назад", "back")]]));
    assert_eq!(
        pairs(&keyboard_markup(Keyboard::Start)),
        expect(vec![vec![("📂 Перейти к книгам", "ready")]])
    );
    assert_eq!(keyboard_markup(Keyboard::Main), main_keyboard());
    assert_eq!(keyboard_markup(Keyboard::Back), back_keyboard());
}

#[test]
fn assets_of_screens() {
    assert_eq!(asset_path(ScreenId::Welcome), Some(BANNER_PATH));
    assert_eq!(asset_path(ScreenId::BookDetail(BookKey::Book1)), Some(BOOK1_PATH));
    assert_eq!(asset_path(ScreenId::BookDetail(BookKey::Book2)), Some("books/Код Денег.pdf"));
    assert_eq!(asset_path(ScreenId::Catalog), None);
    assert_eq!(asset_path(ScreenId::About), None);
}

#[test]
fn welcome_renders_banner_or_fallback() {
    assert_eq!(
        render(ScreenId::Welcome, true),
        vec![Outgoing::Photo { path: BANNER_PATH, caption: WELCOME_CAPTION, keyboard: Some(Keyboard::Start) }]
    );
    assert_eq!(
        render(ScreenId::Welcome, false),
        vec![Outgoing::Text { text: WELCOME_FALLBACK, keyboard: Some(Keyboard::Start) }]
    );
    assert!(WELCOME_CAPTION.starts_with("<b>Привет, друг!</b>\nТы оказался"));
}

#[test]
fn catalog_and_about_render_one_message() {
    assert_eq!(
        render(ScreenId::Catalog, false),
        vec![Outgoing::Text { text: CATALOG_TEXT, keyboard: Some(Keyboard::Main) }]
    );
    assert_eq!(
        render(ScreenId::About, true),
        vec![Outgoing::Text { text: ABOUT_TEXT, keyboard: Some(Keyboard::Back) }]
    );
}

#[test]
fn book_with_file_sends_document() {
    assert_eq!(
        render(ScreenId::BookDetail(BookKey::Book2), true),
        vec![
            Outgoing::Text { text: BOOK2_TEXT, keyboard: Some(Keyboard::Back) },
            Outgoing::Document { path: BOOK2_PATH, caption: BOOK2_CAPTION },
        ]
    );
    assert!(BOOK2_TEXT.starts_with("📙 Код Денег\n💰"));
}

#[test]
fn store_get_replace_push() {
    let mut s = ChatStateStore::new();
    assert!(s.get(1).is_empty());
    s.replace(1, vec![4, 5]);
    assert_eq!(s.get(1), vec![4, 5]);
    s.push(1, 6);
    s.push(2, 9);
    assert_eq!(s.get(1), vec![4, 5, 6]);
    assert_eq!(s.get(2), vec![9]);
    s.replace(1, Vec::new());
    assert!(s.get(1).is_empty());
    assert_eq!(s.get(2), vec![9]);
}
