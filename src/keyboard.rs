//! The inline keyboards attached to screens, built as the transport's markup.
use teloxide::types::{InlineKeyboardButton, InlineKeyboardMarkup};
use vstd::prelude::*;

verus! {

#[verifier::external_type_specification]
#[verifier::external_body]
pub struct ExInlineKeyboardButton(InlineKeyboardButton);

#[verifier::external_type_specification]
#[verifier::external_body]
pub struct ExInlineKeyboardMarkup(InlineKeyboardMarkup);

/// What a button holds: the label shown and the callback payload sent back.
pub uninterp spec fn button_entry(b: InlineKeyboardButton) -> (Seq<char>, Seq<char>);

/// What a markup holds: its rows in order, each button as (label, payload).
pub uninterp spec fn markup_rows(m: InlineKeyboardMarkup) -> Seq<Seq<(Seq<char>, Seq<char>)>>;

/// The keyboards attached to screens.
#[derive(Clone, Copy, Debug, PartialEq, Eq, Structural)]
pub enum Keyboard {
    /// The single button of the welcome screen.
    Start,
    /// The catalog menu.
    Main,
    /// The way back from a detail screen.
    Back,
}

/// The rows of a keyboard, each button as (label, payload).
pub open spec fn keyboard_spec(k: Keyboard) -> Seq<Seq<(Seq<char>, Seq<char>)>> {
    match k {
        Keyboard::Start => seq![seq![("📂 Перейти к книгам"@, "ready"@)]],
        Keyboard::Main => seq![
            seq![("📕 Управляй или подчиняйся"@, "book1"@), ("📙 Код Денег"@, "book2"@)],
            seq![("ℹ️ О проекте"@, "about_project"@)],
        ],
        Keyboard::Back => seq![seq![("🔙 Назад"@, "back"@)]],
    }
}

pub open spec fn row_entries(row: Vec<InlineKeyboardButton>) -> Seq<(Seq<char>, Seq<char>)> {
    row@.map_values(|b: InlineKeyboardButton| button_entry(b))
}

/// Relies on teloxide's `InlineKeyboardButton::callback`: the button's text is
/// `label` and its kind is callback data `payload`.
#[verifier::external_body]
fn callback_button(label: &str, payload: &str) -> (r: InlineKeyboardButton)
    ensures
        button_entry(r) == (label@, payload@),
{
    InlineKeyboardButton::callback(label, payload)
}

/// Relies on teloxide's `InlineKeyboardMarkup::new`: the rows and the buttons
/// of each row are collected in the order given.
#[verifier::external_body]
fn markup_of(rows: Vec<Vec<InlineKeyboardButton>>) -> (r: InlineKeyboardMarkup)
    ensures
        markup_rows(r) == rows@.map_values(|row: Vec<InlineKeyboardButton>| row_entries(row)),
{
    InlineKeyboardMarkup::new(rows)
}

fn single_button(label: &str, payload: &str) -> (r: InlineKeyboardMarkup)
    ensures
        markup_rows(r) == seq![seq![(label@, payload@)]],
{
    let mut row: Vec<InlineKeyboardButton> = Vec::new();
    row.push(callback_button(label, payload));
    let mut rows: Vec<Vec<InlineKeyboardButton>> = Vec::new();
    rows.push(row);
    assert(row_entries(rows@[0]) =~= seq![(label@, payload@)]);
    let r = markup_of(rows);
    assert(markup_rows(r) =~= seq![seq![(label@, payload@)]]);
    r
}

/// The catalog menu: both books on the first row, the project page below.
pub fn main_keyboard() -> (r: InlineKeyboardMarkup)
    ensures
        markup_rows(r) == keyboard_spec(Keyboard::Main),
{
    let mut first: Vec<InlineKeyboardButton> = Vec::new();
    first.push(callback_button("📕 Управляй или подчиняйся", "book1"));
    first.push(callback_button("📙 Код Денег", "book2"));
    let mut second: Vec<InlineKeyboardButton> = Vec::new();
    second.push(callback_button("ℹ️ О проекте", "about_project"));
    let mut rows: Vec<Vec<InlineKeyboardButton>> = Vec::new();
    rows.push(first);
    rows.push(second);
    assert(row_entries(rows@[0]) =~= seq![
        ("📕 Управляй или подчиняйся"@, "book1"@),
        ("📙 Код Денег"@, "book2"@),
    ]);
    assert(row_entries(rows@[1]) =~= seq![("ℹ️ О проекте"@, "about_project"@)]);
    let r = markup_of(rows);
    assert(markup_rows(r) =~= keyboard_spec(Keyboard::Main));
    r
}

/// The single button that leads back to the catalog.
pub fn back_keyboard() -> (r: InlineKeyboardMarkup)
    ensures
        markup_rows(r) == keyboard_spec(Keyboard::Back),
{
    single_button("🔙 Назад", "back")
}

/// The markup of a keyboard.
pub fn keyboard_markup(k: Keyboard) -> (r: InlineKeyboardMarkup)
    ensures
        markup_rows(r) == keyboard_spec(k),
{
    match k {
        Keyboard::Start => single_button("📂 Перейти к книгам", "ready"),
        Keyboard::Main => main_keyboard(),
        Keyboard::Back => back_keyboard(),
    }
}

} // verus!
