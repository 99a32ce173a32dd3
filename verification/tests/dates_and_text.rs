use moskino::callbackdata::{Cbd, CallbackDataCinema, CallbackDataDefault};
use moskino::dates::{date_to_string, datetime_utc3, parse_date, time_determine, time_to_string,
    ArgDay, Date, Time};
use moskino::store::{Cinema, Movie, Session};

fn d(year: i32, month: u8, day: u8) -> Date {
    Date { year, month, day }
}

#[test]
fn date_prints_zero_padded() {
    assert_eq!(date_to_string(&d(2024, 1, 5)), "2024.01.05");
    assert_eq!(date_to_string(&d(987, 12, 31)), "0987.12.31");
}

#[test]
fn date_parses_back_what_it_prints() {
    let date = d(2024, 2, 29);
    assert_eq!(parse_date(&date_to_string(&date)), Some(date));
}

#[test]
fn date_parse_rejects_bad_shapes_and_bad_days() {
    assert_eq!(parse_date("2024.1.05"), None);
    assert_eq!(parse_date("2024-01-05"), None);
    assert_eq!(parse_date("2024.01.05x"), None);
    assert_eq!(parse_date("2024.13.01"), None);
    assert_eq!(parse_date("2024.00.10"), None);
    assert_eq!(parse_date("2023.02.29"), None);
    assert_eq!(parse_date("2024.02.29"), Some(d(2024, 2, 29)));
    assert_eq!(parse_date("2024.04.31"), None);
    // Century years are leap years only when divisible by four hundred.
    assert_eq!(parse_date("2400.02.29"), Some(d(2400, 2, 29)));
    assert_eq!(parse_date("2100.02.29"), None);
}

#[test]
fn time_prints_zero_padded() {
    assert_eq!(time_to_string(&Time { hour: 9, minute: 5 }), "09:05");
    assert_eq!(time_to_string(&Time { hour: 19, minute: 25 }), "19:25");
}

#[test]
fn time_determine_uses_midnight_for_days_ahead() {
    let today = d(2024, 1, 5);
    let now = Time { hour: 14, minute: 30 };
    assert_eq!(time_determine(&d(2024, 1, 6), &today, now), Time { hour: 0, minute: 0 });
    assert_eq!(time_determine(&d(2024, 1, 5), &today, now), now);
    assert_eq!(time_determine(&d(2024, 1, 4), &today, now), now);
}

#[test]
fn clock_hands_back_well_formed_values() {
    let (today, now) = datetime_utc3();
    assert!((1..=12).contains(&today.month));
    assert!((1..=31).contains(&today.day));
    assert!(today.year >= 1970);
    assert!(now.hour < 24 && now.minute < 60);
    for arg in [ArgDay::Today, ArgDay::Tommorow, ArgDay::Aftertommorow] {
        let date = ArgDay::get_date(arg);
        assert!((1..=12).contains(&date.month));
        assert!((1..=31).contains(&date.day));
    }
}

#[test]
fn headline_for_today_is_fixed() {
    let today = d(2024, 1, 5);
    let data = CallbackDataDefault::new(today, 1, None, 10);
    assert_eq!(data.headline_text(&today), "Сегодня в прокате");
}

#[test]
fn headline_for_another_day_is_localized_and_lowercased() {
    // 2024-01-05 is a Friday; the Russian locale names it with a capital
    // letter and the headline lowercases the whole text.
    let data = CallbackDataDefault::new(d(2024, 1, 5), 1, None, 10);
    assert_eq!(data.headline_text(&d(2024, 1, 4)), "05.01 (пятница) в прокате");
}

#[test]
fn cinema_headline_names_the_cinema() {
    let today = d(2024, 1, 5);
    let cinema = Cinema::new(2, "Космос".to_string());
    let data = CallbackDataCinema::new(today, cinema, 1, None, 10);
    assert_eq!(data.headline_text(&today), "Сегодня в кинотеатре Космос");
    assert_eq!(data.headline_text(&d(2024, 1, 4)), "05.01 (пятница) в кинотеатре Космос");
}

#[test]
fn absence_texts_follow_the_context() {
    let data = CallbackDataDefault::new(d(2024, 1, 5), 1, None, 10);
    let (text, _) = data.get_data_for_absence_answer();
    assert_eq!(text, "Нету доступных фильмов для показа");
    let cinema = Cinema::new(2, "Искра".to_string());
    let data = CallbackDataCinema::new(d(2024, 1, 5), cinema, 1, None, 10);
    let (text, _) = data.get_data_for_absence_answer();
    assert_eq!(text, "В кинотеатре 'Искра' нету доступных фильмов для показа");
}

fn session(h: u8, m: u8, price: i32) -> Session {
    Session {
        cinema_name: "Сатурн".to_string(),
        showtime: Time { hour: h, minute: m },
        showdate: d(2024, 1, 5),
        price,
    }
}

#[test]
fn cinema_sessions_text_joins_time_and_price() {
    let cinema = Cinema::new(2, "Сатурн".to_string());
    let data = CallbackDataCinema::new(d(2024, 1, 5), cinema, 1, None, 10);
    let text = data.show_sessions(Some(vec![session(13, 0, 200), session(19, 25, 300)]));
    assert_eq!(text, "13:00 - 200 руб. | 19:25 - 300 руб.");
    let text = data.show_sessions(Some(vec![session(9, 5, 170)]));
    assert_eq!(text, "09:05 - 170 руб.");
    let text = data.show_sessions(None);
    assert_eq!(text, "Нету доступных сеансов");
}

#[test]
fn default_sessions_text_points_at_the_site() {
    let data = CallbackDataDefault::new(d(2024, 1, 5), 1, None, 10);
    let text = data.show_sessions(None);
    assert_eq!(
        text,
        "Список может получиться слишком длинным. Посмотрите сеансы перейдя по ссылке на Москино"
    );
}

#[test]
fn movie_description_skips_absent_fields() {
    let movie = Movie {
        title: "Леон".to_string(),
        year: Some(1994),
        genre: None,
        director: Some("Люк Бессон".to_string()),
        description: Some("Описание.".to_string()),
        ..Default::default()
    };
    assert_eq!(
        movie.description(),
        "Леон\n\nГод: 1994\nРежиссер: Люк Бессон\n\nОписание.\n"
    );
    let bare = Movie { title: "Леон".to_string(), ..Default::default() };
    assert_eq!(bare.description(), "Леон\n\n");
}
