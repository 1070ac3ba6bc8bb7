//! The static screen catalog: what each screen sends.
use vstd::prelude::*;

use crate::keyboard::Keyboard;
use crate::screen::{BookKey, ScreenId};

verus! {

// The texts, captions and asset paths of the screens.

pub const WELCOME_CAPTION: &'static str = "<b>Привет, друг!</b>\n\
Ты оказался в ReMind-архиве — месте, где мы собираем книги, исчезнувшие с полок, но не из памяти.\n\n\
<b>В этом боте ты сможешь:</b>\n\
1. <b>Приобрести свою книгу.</b> Не по жанру. Не по тренду. А по ощущению.\n\
2. <b>Открой то, что прячут.</b> Мы сохраняем тексты, которые удалили, забыли или пытались спрятать.\n\n\
Нажимай на кнопку ниже и наслаждайся книгами ⬇️";

pub const WELCOME_FALLBACK: &'static str = "Добро пожаловать! (но баннер не найден)";

pub const CATALOG_TEXT: &'static str = "📂 Вот то, что мы смогли сохранить:";

pub const BOOK1_TEXT: &'static str = "📕 Управляй или подчиняйся\n\
                    🩸 Книга про влияние, которую не напечатают официально\n\n\
                    📌 Что внутри:\n\
                    – 30 глав о власти, контроле и психологической игре\n\
                    – Техники влияния и манипуляции\n\
                    – Как управлять другими, не поднимая голос\n\
                    – Как не стать жертвой\n\n\
                    📄 Формат: PDF\n\
                    ⏱ Объём: ~150 стр\n\
                    📛 Официально не публиковалась. Распространяется вручную.";

pub const BOOK2_TEXT: &'static str = "📙 Код Денег\n\
                    💰 Эту книгу удалили с форумов. Почему — не говорят.\n\n\
                    📌 Что внутри:\n\
                    – Психология бедности\n\
                    – Финансовое мышление богатых\n\
                    – Примеры от нуля до первого миллиона\n\
                    – Как твои установки управляют твоим счётом\n\n\
                    📄 Формат: PDF\n\
                    ⏱ Объём: ~70 стр\n\
                    📛 Не для публичного доступа. Только здесь.";

pub const ABOUT_TEXT: &'static str = "Есть книги, которые не найти в магазинах.
                    Их нет на полках, нет в рекламе, нет в поиске.
                    Они исчезают. Их удаляют.
                    Иногда — потому что они опасны. Иногда — потому что слишком честны.
                    А иногда — потому что кто-то решил, что ты не должен их читать.

                    Этот проект — не просто библиотека.
                    Это архив из теней.
                    Мы собираем, восстанавливаем и сохраняем книги, которые вычищают из интернета.
                    Некоторые были удалены. Некоторые — запрещены. Некоторые — никогда и не должны были появиться в открытом доступе.

                    Каждая книга здесь — это не просто PDF.
                    Это знание, которое выжило.
                    Знание, которое может изменить мышление, сломать старые рамки и показать то, что обычно скрывают.

                    📅 Мы добавляем одну новую книгу каждую неделю.
                    Она появляется здесь — тихо, без рекламы, без шума.
                    И если ты читаешь это — ты успел. Пока не стало поздно.

                    Подписывайся на наш открытый канал, чтобы не пропустить следующие книги.
                    Мы не обещаем, что они будут всегда.
                    Но пока мы здесь — они будут появляться.
                    🔗 @Remind_ofc";

pub const UNAVAILABLE_TEXT: &'static str = "❌ Файл временно недоступен";

pub const BANNER_PATH: &'static str = "assets/welcome.jpg";

pub const BOOK1_PATH: &'static str = "books/Управляй или Подчиняйся.pdf";

pub const BOOK2_PATH: &'static str = "books/Код Денег.pdf";

pub const BOOK1_CAPTION: &'static str = "⚠️ Не распространяйте файл";

pub const BOOK2_CAPTION: &'static str = "⚠️ Только для личного использования";

/// One message to send while rendering a screen.
#[derive(Clone, Copy, Debug, PartialEq, Eq)]
pub enum Outgoing {
    /// A plain text message, with an optional keyboard.
    Text { text: &'static str, keyboard: Option<Keyboard> },
    /// A photo from `path` with an HTML caption and an optional keyboard.
    Photo { path: &'static str, caption: &'static str, keyboard: Option<Keyboard> },
    /// A file from `path` with a caption.
    Document { path: &'static str, caption: &'static str },
}

pub open spec fn book_text(k: BookKey) -> &'static str {
    match k {
        BookKey::Book1 => BOOK1_TEXT,
        BookKey::Book2 => BOOK2_TEXT,
    }
}

pub open spec fn book_path(k: BookKey) -> &'static str {
    match k {
        BookKey::Book1 => BOOK1_PATH,
        BookKey::Book2 => BOOK2_PATH,
    }
}

pub open spec fn book_caption(k: BookKey) -> &'static str {
    match k {
        BookKey::Book1 => BOOK1_CAPTION,
        BookKey::Book2 => BOOK2_CAPTION,
    }
}

/// The on-disk asset a screen depends on: the banner or the book's file.
pub open spec fn asset_of(s: ScreenId) -> Option<&'static str> {
    match s {
        ScreenId::Welcome => Some(BANNER_PATH),
        ScreenId::BookDetail(k) => Some(book_path(k)),
        _ => None,
    }
}

/// The messages that render a screen, given whether its asset exists.
pub open spec fn render_spec(s: ScreenId, asset_present: bool) -> Seq<Outgoing> {
    match s {
        ScreenId::Welcome => if asset_present {
            seq![Outgoing::Photo { path: BANNER_PATH, caption: WELCOME_CAPTION, keyboard: Some(Keyboard::Start) }]
        } else {
            seq![Outgoing::Text { text: WELCOME_FALLBACK, keyboard: Some(Keyboard::Start) }]
        },
        ScreenId::Catalog => seq![Outgoing::Text { text: CATALOG_TEXT, keyboard: Some(Keyboard::Main) }],
        ScreenId::BookDetail(k) => seq![
            Outgoing::Text { text: book_text(k), keyboard: Some(Keyboard::Back) },
            if asset_present {
                Outgoing::Document { path: book_path(k), caption: book_caption(k) }
            } else {
                Outgoing::Text { text: UNAVAILABLE_TEXT, keyboard: None }
            },
        ],
        ScreenId::About => seq![Outgoing::Text { text: ABOUT_TEXT, keyboard: Some(Keyboard::Back) }],
    }
}

/// The asset whose existence decides how a screen is rendered, if any.
pub fn asset_path(s: ScreenId) -> (r: Option<&'static str>)
    ensures
        r == asset_of(s),
{
    match s {
        ScreenId::Welcome => Some(BANNER_PATH),
        ScreenId::BookDetail(BookKey::Book1) => Some(BOOK1_PATH),
        ScreenId::BookDetail(BookKey::Book2) => Some(BOOK2_PATH),
        _ => None,
    }
}

/// The messages that render a screen, in sending order.
pub fn render(s: ScreenId, asset_present: bool) -> (r: Vec<Outgoing>)
    ensures
        r@ == render_spec(s, asset_present),
{
    let mut out: Vec<Outgoing> = Vec::new();
    match s {
        ScreenId::Welcome => {
            if asset_present {
                out.push(Outgoing::Photo { path: BANNER_PATH, caption: WELCOME_CAPTION, keyboard: Some(Keyboard::Start) });
            } else {
                out.push(Outgoing::Text { text: WELCOME_FALLBACK, keyboard: Some(Keyboard::Start) });
            }
        },
        ScreenId::Catalog => {
            out.push(Outgoing::Text { text: CATALOG_TEXT, keyboard: Some(Keyboard::Main) });
        },
        ScreenId::BookDetail(k) => {
            let (text, path, caption) = match k {
                BookKey::Book1 => (BOOK1_TEXT, BOOK1_PATH, BOOK1_CAPTION),
                BookKey::Book2 => (BOOK2_TEXT, BOOK2_PATH, BOOK2_CAPTION),
            };
            out.push(Outgoing::Text { text, keyboard: Some(Keyboard::Back) });
            if asset_present {
                out.push(Outgoing::Document { path, caption });
            } else {
                out.push(Outgoing::Text { text: UNAVAILABLE_TEXT, keyboard: None });
            }
        },
        ScreenId::About => {
            out.push(Outgoing::Text { text: ABOUT_TEXT, keyboard: Some(Keyboard::Back) });
        },
    }
    assert(out@ =~= render_spec(s, asset_present));
    out
}

} // verus!
