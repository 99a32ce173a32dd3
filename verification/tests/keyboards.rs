use moskino::dates::Date;
use moskino::keyboard::{keyboard_cinemas, keyboard_day, keyboard_main, keyboard_movielist,
    keyboard_ok_or_up, keybord_movie_links, Button, MenuCode};
use moskino::store::{Cinema, MovieShort};

fn callback(b: &Button) -> (&str, &str) {
    match b {
        Button::Callback { label, token } => (label.as_str(), token.as_str()),
        Button::Link { .. } => panic!("expected a callback button"),
    }
}

fn link(b: &Button) -> (&str, &str) {
    match b {
        Button::Link { label, href } => (label.as_str(), href.as_str()),
        Button::Callback { .. } => panic!("expected a link button"),
    }
}

#[test]
fn main_keyboard_layout_and_tokens() {
    let kb = keyboard_main();
    assert_eq!(kb.len(), 2);
    assert_eq!(callback(&kb[0][0]), ("Все фильмы", "1:-99"));
    assert_eq!(callback(&kb[0][1]), ("По кинотеатру", "1:-98"));
    assert_eq!(callback(&kb[1][0]), ("❌ Закрыть", "1:-94"));
    assert_eq!(callback(&kb[1][1]), ("️Наверх ⬆", "1:-95"));
}

#[test]
fn day_keyboard_carries_the_dates() {
    let today = Date { year: 2024, month: 1, day: 5 };
    let tomorrow = Date { year: 2024, month: 1, day: 6 };
    let after = Date { year: 2024, month: 1, day: 7 };
    let kb = keyboard_day(&today, &tomorrow, &after);
    assert_eq!(kb.len(), 3);
    assert_eq!(callback(&kb[0][0]), ("Сегодня", "0:2024.01.05"));
    // The labels come from the Russian locale: weekday, a dot, day.month.
    assert_eq!(callback(&kb[1][0]), ("Суббота • 06.01", "0:2024.01.06"));
    assert_eq!(callback(&kb[1][1]), ("Воскресенье • 07.01", "0:2024.01.07"));
    assert_eq!(callback(&kb[2][0]), ("❌ Закрыть", "0:-94"));
}

#[test]
fn cinema_keyboard_packs_two_per_row() {
    let cinemas = vec![
        Cinema::new(1, "Березка".to_string()),
        Cinema::new(2, "Вымпел".to_string()),
        Cinema::new(3, "Сатурн".to_string()),
    ];
    let kb = keyboard_cinemas(cinemas);
    assert_eq!(kb.len(), 3);
    assert_eq!(kb[0].len(), 2);
    assert_eq!(callback(&kb[0][0]), ("Березка", "2:1"));
    assert_eq!(callback(&kb[0][1]), ("Вымпел", "2:2"));
    assert_eq!(kb[1].len(), 1);
    assert_eq!(callback(&kb[1][0]), ("Сатурн", "2:3"));
    assert_eq!(callback(&kb[2][0]), ("❌ Закрыть", "2:-94"));
    assert_eq!(callback(&kb[2][1]), ("️Наверх ⬆", "2:-95"));
}

#[test]
fn empty_cinema_list_leaves_only_the_control_row() {
    let kb = keyboard_cinemas(Vec::new());
    assert_eq!(kb.len(), 1);
    assert_eq!(kb[0].len(), 2);
}

#[test]
fn movielist_keyboard_rows_and_page_label() {
    let movies = vec![
        MovieShort { id: 7, title: "Леон".to_string() },
        MovieShort { id: 42, title: "Шоу Трумана".to_string() },
    ];
    let kb = keyboard_movielist(movies, MenuCode::MovielistDefault, 2, 9);
    assert_eq!(kb.len(), 3);
    assert_eq!(kb[0].len(), 1);
    assert_eq!(callback(&kb[0][0]), ("Леон", "4:7"));
    assert_eq!(callback(&kb[1][0]), ("Шоу Трумана", "4:42"));
    let controls = &kb[2];
    assert_eq!(controls.len(), 4);
    assert_eq!(callback(&controls[0]), ("⬅️", "4:-97"));
    assert_eq!(callback(&controls[1]), ("➡️", "4:-96"));
    assert_eq!(callback(&controls[2]), ("2 из 9", "4:-92"));
    assert_eq!(callback(&controls[3]), ("️⬆", "4:-95"));
}

#[test]
fn movielist_keyboard_uses_the_cinema_menu_code_when_asked() {
    let movies = vec![MovieShort { id: 5, title: "Леон".to_string() }];
    let kb = keyboard_movielist(movies, MenuCode::MovielistFromCinema, 1, 1);
    assert_eq!(callback(&kb[0][0]), ("Леон", "3:5"));
    assert_eq!(callback(&kb[1][2]), ("1 из 1", "3:-92"));
}

#[test]
fn ok_or_up_keyboard_has_one_row() {
    let kb = keyboard_ok_or_up(MenuCode::MovielistFromCinema);
    assert_eq!(kb.len(), 1);
    assert_eq!(callback(&kb[0][0]), ("😔 Ок", "3:-94"));
    assert_eq!(callback(&kb[0][1]), ("️Наверх ⬆", "3:-95"));
}

#[test]
fn movie_links_keyboard_with_both_links() {
    let kb = keybord_movie_links(
        Some("https://mos-kino.ru/film/leon"),
        Some("https://www.kinopoisk.ru/film/522"),
        MenuCode::MovielistDefault,
    );
    assert_eq!(kb.len(), 2);
    assert_eq!(callback(&kb[0][0]), ("🌝 Ок", "4:-94"));
    assert_eq!(callback(&kb[0][1]), ("🗓", "4:-93"));
    assert_eq!(link(&kb[1][0]), ("Москино", "https://mos-kino.ru/film/leon"));
    assert_eq!(link(&kb[1][1]), ("Кинопоиск", "https://www.kinopoisk.ru/film/522"));
}

#[test]
fn movie_links_keyboard_without_links_has_one_row() {
    let kb = keybord_movie_links(None, None, MenuCode::MovielistFromCinema);
    assert_eq!(kb.len(), 1);
    assert_eq!(kb[0].len(), 2);
    assert_eq!(callback(&kb[0][0]), ("🌝 Ок", "3:-94"));
}

#[test]
fn movie_links_keyboard_with_one_link_wraps_to_two_rows() {
    let kb = keybord_movie_links(Some("https://mos-kino.ru/film/leon"), None, MenuCode::PinnedMovie);
    assert_eq!(kb.len(), 2);
    assert_eq!(kb[0].len(), 2);
    assert_eq!(kb[1].len(), 1);
    assert_eq!(link(&kb[1][0]), ("Москино", "https://mos-kino.ru/film/leon"));
}
