use moskino::callback_handler::{callback_handle_pinned_movie, cb_cinemas_selected,
    cb_handle_cinemas, cb_handle_day_option, cb_handle_pressed_button, cb_handle_start_option,
    cb_start_option_cinemas, movielist_prepare, callback_handle_movielist, pinned_movie_commit,
    pinned_movie_fresh, restart_dayoption, restart_mainmenu, show_sessions_step, CinemaSelect,
    CinemasStep, PinnedStep, PressedStep, StartStep};
use moskino::callbackdata::{CallbackDataCinema, CallbackDataDefault, CallbackPinnedMsg};
use moskino::dates::{Date, Time};
use moskino::dialogue::{Effect, Outcome, State};
use moskino::keyboard::{Button, ButtonOption, MenuCode};
use moskino::store::{Cinema, CountQuery, DbError, Movie, MovieShort, PageQuery, Session,
    SessionsQuery};

fn date() -> Date {
    Date { year: 2024, month: 1, day: 5 }
}

fn token(b: &Button) -> &str {
    match b {
        Button::Callback { token, .. } => token.as_str(),
        Button::Link { .. } => panic!("expected a callback button"),
    }
}

#[test]
fn restart_mainmenu_edits_into_the_option_choice() {
    let (effect, state) = restart_mainmenu(12, date());
    match effect {
        Effect::EditMessage { chat_msg_id, text, keyboard } => {
            assert_eq!(chat_msg_id, 12);
            assert_eq!(text, "Выберите опцию");
            assert_eq!(keyboard.len(), 2);
        },
        other => panic!("unexpected effect: {:?}", other),
    }
    assert!(matches!(state, State::StartOption { date: d } if d == date()));
}

#[test]
fn restart_dayoption_edits_into_the_day_choice() {
    let today = date();
    let tomorrow = Date { year: 2024, month: 1, day: 6 };
    let after = Date { year: 2024, month: 1, day: 7 };
    let (effect, state) = restart_dayoption(3, &today, &tomorrow, &after);
    match effect {
        Effect::EditMessage { chat_msg_id, text, keyboard } => {
            assert_eq!(chat_msg_id, 3);
            assert_eq!(text, "Выберите день");
            assert_eq!(keyboard.len(), 3);
        },
        other => panic!("unexpected effect: {:?}", other),
    }
    assert!(matches!(state, State::DayOption));
}

#[test]
fn day_option_date_press_moves_to_the_option_choice() {
    let (effects, outcome) = cb_handle_day_option("2024.01.05", 3);
    assert_eq!(effects.len(), 1);
    assert!(matches!(&effects[0], Effect::EditMessage { chat_msg_id: 3, .. }));
    assert!(matches!(outcome, Outcome::Update(State::StartOption { date: d }) if d == date()));
}

#[test]
fn day_option_close_deletes_and_exits() {
    let (effects, outcome) = cb_handle_day_option("-94", 3);
    assert_eq!(effects.len(), 1);
    assert!(matches!(&effects[0], Effect::DeleteMessage { chat_msg_id: 3 }));
    assert!(matches!(outcome, Outcome::Exit));
}

#[test]
fn day_option_garbage_exits_silently() {
    let (effects, outcome) = cb_handle_day_option("not-a-date", 3);
    assert!(effects.is_empty());
    assert!(matches!(outcome, Outcome::Exit));
    // A control number other than close also just exits.
    let (effects, outcome) = cb_handle_day_option("-95", 3);
    assert!(effects.is_empty());
    assert!(matches!(outcome, Outcome::Exit));
}

#[test]
fn start_option_branches() {
    match cb_handle_start_option(ButtonOption::Movies.code(), date(), 8, 10) {
        StartStep::Movielist { data } => {
            assert_eq!(data.date, date());
            assert_eq!(data.id_msg, 8);
            assert_eq!(data.db_current_page, 1);
            assert_eq!(data.db_total_pages, 0);
            assert_eq!(data.db_items_per_page, 10);
        },
        other => panic!("unexpected step: {:?}", other),
    }
    assert!(matches!(
        cb_handle_start_option(ButtonOption::Cinemas.code(), date(), 8, 10),
        StartStep::AskCinemas { date: d } if d == date()
    ));
    assert!(matches!(cb_handle_start_option(ButtonOption::Up.code(), date(), 8, 10), StartStep::DayMenu));
    match cb_handle_start_option(ButtonOption::Close.code(), date(), 8, 10) {
        StartStep::Done { effects, outcome } => {
            assert!(matches!(&effects[0], Effect::DeleteMessage { chat_msg_id: 8 }));
            assert!(matches!(outcome, Outcome::Exit));
        },
        other => panic!("unexpected step: {:?}", other),
    }
    match cb_handle_start_option(77, date(), 8, 10) {
        StartStep::Done { effects, outcome } => {
            assert!(effects.is_empty());
            assert!(matches!(outcome, Outcome::Exit));
        },
        other => panic!("unexpected step: {:?}", other),
    }
}

#[test]
fn start_option_cinemas_renders_the_list_or_the_absence() {
    let cinemas = vec![Cinema::new(1, "Березка".to_string())];
    let (effect, outcome) = cb_start_option_cinemas(date(), 8, Ok(Some(cinemas)));
    match effect {
        Effect::EditMessage { chat_msg_id, text, keyboard } => {
            assert_eq!(chat_msg_id, 8);
            assert_eq!(text, "Выберите кинотеатр");
            assert_eq!(keyboard.len(), 2);
        },
        other => panic!("unexpected effect: {:?}", other),
    }
    assert!(matches!(outcome, Outcome::Update(State::Cinemas { date: d }) if d == date()));
    let (effect, outcome) = cb_start_option_cinemas(date(), 8, Ok(None));
    match effect {
        Effect::EditMessage { text, .. } => {
            assert_eq!(text, "Нету доступных кинотеатров для показа")
        },
        other => panic!("unexpected effect: {:?}", other),
    }
    assert!(matches!(outcome, Outcome::Update(State::Cinemas { .. })));
    let (effect, outcome) = cb_start_option_cinemas(date(), 8, Err(DbError));
    assert!(matches!(effect, Effect::EditMessageText { chat_msg_id: 8, ref text } if text == "Что-то пошло не так"));
    assert!(matches!(outcome, Outcome::Exit));
}

#[test]
fn cinemas_selection_builds_the_browse_context() {
    match cb_cinemas_selected(date(), 8, 3, 10, Ok(Some("Сатурн".to_string()))) {
        CinemaSelect::Movielist { data } => {
            assert_eq!(data.cinema.id, 3);
            assert_eq!(data.cinema.name, "Сатурн");
            assert_eq!(data.db_current_page, 1);
            assert_eq!(data.db_total_pages, 0);
        },
        other => panic!("unexpected step: {:?}", other),
    }
    match cb_cinemas_selected(date(), 8, 3, 10, Ok(None)) {
        CinemaSelect::Fail { effect, outcome } => {
            assert!(matches!(effect, Effect::EditMessageText { .. }));
            assert!(matches!(outcome, Outcome::Exit));
        },
        other => panic!("unexpected step: {:?}", other),
    }
}

#[test]
fn cinemas_menu_branches() {
    assert!(matches!(
        cb_handle_cinemas(5, date(), 8),
        CinemasStep::AskCinemaName { cinema_id: 5 }
    ));
    match cb_handle_cinemas(ButtonOption::Up.code(), date(), 8) {
        CinemasStep::Done { effects, outcome } => {
            assert!(matches!(&effects[0], Effect::EditMessage { chat_msg_id: 8, .. }));
            assert!(matches!(outcome, Outcome::Update(State::StartOption { .. })));
        },
        other => panic!("unexpected step: {:?}", other),
    }
    match cb_handle_cinemas(ButtonOption::Close.code(), date(), 8) {
        CinemasStep::Done { effects, outcome } => {
            assert!(matches!(&effects[0], Effect::DeleteMessage { chat_msg_id: 8 }));
            assert!(matches!(outcome, Outcome::Exit));
        },
        other => panic!("unexpected step: {:?}", other),
    }
    match cb_handle_cinemas(0, date(), 8) {
        CinemasStep::Done { effects, outcome } => {
            assert!(effects.is_empty());
            assert!(matches!(outcome, Outcome::Exit));
        },
        other => panic!("unexpected step: {:?}", other),
    }
}

fn browse_data(pinned: Option<CallbackPinnedMsg>) -> CallbackDataDefault {
    let mut data = CallbackDataDefault::new(date(), 20, pinned, 10);
    data.set_total_pages(25);
    data
}

#[test]
fn pressed_button_page_turn_goes_to_the_list_flow() {
    let data = browse_data(None);
    match cb_handle_pressed_button(ButtonOption::Forward.code(), 20, data) {
        PressedStep::Movielist { option, data } => {
            assert_eq!(option, ButtonOption::Forward);
            assert_eq!(data.db_current_page, 1);
        },
        other => panic!("unexpected step: {:?}", other),
    }
}

#[test]
fn pressed_button_close_deletes_list_and_pinned() {
    let data = browse_data(Some(CallbackPinnedMsg::new(33, 7)));
    match cb_handle_pressed_button(ButtonOption::Close.code(), 20, data) {
        PressedStep::Done { effects, outcome } => {
            assert_eq!(effects.len(), 2);
            assert!(matches!(&effects[0], Effect::DeleteMessage { chat_msg_id: 20 }));
            assert!(matches!(&effects[1], Effect::DeleteMessage { chat_msg_id: 33 }));
            assert!(matches!(outcome, Outcome::Exit));
        },
        other => panic!("unexpected step: {:?}", other),
    }
}

#[test]
fn pressed_button_up_returns_to_the_main_menu() {
    let data = browse_data(Some(CallbackPinnedMsg::new(33, 7)));
    match cb_handle_pressed_button(ButtonOption::Up.code(), 20, data) {
        PressedStep::Done { effects, outcome } => {
            assert_eq!(effects.len(), 2);
            assert!(matches!(&effects[0], Effect::DeleteMessage { chat_msg_id: 33 }));
            assert!(matches!(&effects[1], Effect::EditMessage { chat_msg_id: 20, .. }));
            assert!(matches!(outcome, Outcome::Update(State::StartOption { date: d }) if d == date()));
        },
        other => panic!("unexpected step: {:?}", other),
    }
}

#[test]
fn pressed_button_up_from_a_cinema_list_asks_for_cinemas() {
    let cinema = Cinema::new(3, "Сатурн".to_string());
    let data = CallbackDataCinema::new(date(), cinema, 20, Some(CallbackPinnedMsg::new(33, 7)), 10);
    match cb_handle_pressed_button(ButtonOption::Up.code(), 20, data) {
        PressedStep::PrevCinemas { effects, date: d } => {
            assert_eq!(effects.len(), 1);
            assert!(matches!(&effects[0], Effect::DeleteMessage { chat_msg_id: 33 }));
            assert_eq!(d, date());
        },
        other => panic!("unexpected step: {:?}", other),
    }
}

#[test]
fn pressed_button_sessions_names_the_query() {
    let data = browse_data(Some(CallbackPinnedMsg::new(33, 7)));
    match cb_handle_pressed_button(ButtonOption::Sessions.code(), 20, data) {
        PressedStep::Sessions { query, .. } => {
            assert_eq!(query, SessionsQuery::AllMovies { movie_id: 7, date: date() });
        },
        other => panic!("unexpected step: {:?}", other),
    }
    let cinema = Cinema::new(3, "Сатурн".to_string());
    let data = CallbackDataCinema::new(date(), cinema, 20, Some(CallbackPinnedMsg::new(33, 7)), 10);
    match cb_handle_pressed_button(ButtonOption::Sessions.code(), 20, data) {
        PressedStep::Sessions { query, .. } => {
            assert_eq!(
                query,
                SessionsQuery::ByCinema { movie_id: 7, cinema_id: 3, date: date() }
            );
        },
        other => panic!("unexpected step: {:?}", other),
    }
}

#[test]
fn pressed_button_movie_id_goes_to_the_pinned_flow() {
    let data = browse_data(None);
    match cb_handle_pressed_button(42, 20, data) {
        PressedStep::PinnedMovie { movie_id, .. } => assert_eq!(movie_id, 42),
        other => panic!("unexpected step: {:?}", other),
    }
    // A non-positive non-control payload does nothing.
    let data = browse_data(None);
    match cb_handle_pressed_button(-5, 20, data) {
        PressedStep::Done { effects, outcome } => {
            assert!(effects.is_empty());
            assert!(matches!(outcome, Outcome::Keep));
        },
        other => panic!("unexpected step: {:?}", other),
    }
}

#[test]
fn sessions_step_answers_with_an_alert_and_keeps_state() {
    let data = browse_data(Some(CallbackPinnedMsg::new(33, 7)));
    let sessions = vec![Session {
        cinema_name: "Сатурн".to_string(),
        showtime: Time { hour: 13, minute: 0 },
        showdate: date(),
        price: 200,
    }];
    let (effect, outcome) = show_sessions_step(data, 20, Ok(Some(sessions)));
    assert!(matches!(effect, Effect::AnswerAlert { .. }));
    assert!(matches!(outcome, Outcome::Keep));
    let data = browse_data(None);
    let (effect, outcome) = show_sessions_step(data, 20, Err(DbError));
    assert!(matches!(effect, Effect::EditMessageText { chat_msg_id: 20, .. }));
    assert!(matches!(outcome, Outcome::Exit));
}

#[test]
fn movielist_prepare_blocks_the_inert_press() {
    let mut data = browse_data(None);
    assert!(movielist_prepare(&mut data, ButtonOption::Back).is_none());
    assert_eq!(data.db_current_page, 1);
    let (count_q, page_q) = movielist_prepare(&mut data, ButtonOption::Forward).unwrap();
    assert_eq!(data.db_current_page, 2);
    assert_eq!(count_q, CountQuery::AllMovies { date: date() });
    assert_eq!(
        page_q,
        PageQuery::AllMovies { date: date(), page: 2, per_page: 10 }
    );
}

#[test]
fn movielist_render_shows_the_page() {
    let data = browse_data(None);
    let movies = vec![MovieShort { id: 7, title: "Леон".to_string() }];
    let today = date();
    let (effect, outcome) = callback_handle_movielist(data, 20, &today, Ok((25, Some(movies))));
    match effect {
        Effect::EditMessage { chat_msg_id, text, keyboard } => {
            assert_eq!(chat_msg_id, 20);
            assert_eq!(text, "Сегодня в прокате");
            assert_eq!(keyboard.len(), 2);
            assert_eq!(token(&keyboard[1][2]), "4:-92");
        },
        other => panic!("unexpected effect: {:?}", other),
    }
    match outcome {
        Outcome::Update(State::FromMovie { data }) => {
            assert_eq!(data.db_total_pages, 3);
            assert_eq!(data.db_current_page, 1);
        },
        other => panic!("unexpected outcome: {:?}", other),
    }
}

#[test]
fn scenario_empty_listing_renders_absence_controls() {
    // No items at all: the render uses the absence text with the ok/up
    // controls instead of the paginated list.
    let data = browse_data(None);
    let today = date();
    let (effect, outcome) = callback_handle_movielist(data, 20, &today, Ok((0, None)));
    match effect {
        Effect::EditMessage { chat_msg_id, text, keyboard } => {
            assert_eq!(chat_msg_id, 20);
            assert_eq!(text, "Нету доступных фильмов для показа");
            assert_eq!(keyboard.len(), 1);
            assert_eq!(keyboard[0].len(), 2);
            assert_eq!(token(&keyboard[0][0]), "4:-94");
            assert_eq!(token(&keyboard[0][1]), "4:-95");
        },
        other => panic!("unexpected effect: {:?}", other),
    }
    match outcome {
        Outcome::Update(State::FromMovie { data }) => {
            assert_eq!(data.db_total_pages, 0);
            assert_eq!(data.db_current_page, 1);
        },
        other => panic!("unexpected outcome: {:?}", other),
    }
}

#[test]
fn movielist_render_failure_is_terminal() {
    let data = browse_data(None);
    let today = date();
    let (effect, outcome) = callback_handle_movielist(data, 20, &today, Err(DbError));
    assert!(matches!(effect, Effect::EditMessageText { chat_msg_id: 20, .. }));
    assert!(matches!(outcome, Outcome::Exit));
}

fn movie(title: &str) -> Movie {
    Movie {
        title: title.to_string(),
        href_moskino: Some("https://mos-kino.ru/film/x".to_string()),
        ..Default::default()
    }
}

#[test]
fn scenario_pinned_detail_send_then_noop_then_edit() {
    // A by-cinema browse with no pinned detail selects movie 42: a new
    // message is sent and committed. Selecting 42 again is a no-op.
    // Selecting 7 edits the same message in place.
    let cinema = Cinema::new(3, "Сатурн".to_string());
    let data = CallbackDataCinema::new(date(), cinema, 20, None, 10);
    assert!(pinned_movie_fresh(&data, 42));
    let step = callback_handle_pinned_movie(data, 20, 42, Ok(Some(movie("Леон"))));
    let data = match step {
        PinnedStep::SendNew { text, keyboard, data } => {
            assert!(text.starts_with("Леон"));
            assert!(!keyboard.is_empty());
            data
        },
        other => panic!("expected a send, got: {:?}", other),
    };
    let state = pinned_movie_commit(data, 55, 42);
    let data = match state {
        State::FromCinema { data } => data,
        other => panic!("unexpected state: {:?}", other),
    };
    assert_eq!(data.pinned_msg, Some(CallbackPinnedMsg::new(55, 42)));
    // Selecting the same movie again needs no render.
    assert!(!pinned_movie_fresh(&data, 42));
    // Selecting another movie edits the same message.
    assert!(pinned_movie_fresh(&data, 7));
    let step = callback_handle_pinned_movie(data, 20, 7, Ok(Some(movie("Олдбой"))));
    match step {
        PinnedStep::Edited { effect, state } => {
            match effect {
                Effect::EditMessage { chat_msg_id, text, .. } => {
                    assert_eq!(chat_msg_id, 55);
                    assert!(text.starts_with("Олдбой"));
                },
                other => panic!("unexpected effect: {:?}", other),
            }
            match state {
                State::FromCinema { data } => {
                    assert_eq!(data.pinned_msg, Some(CallbackPinnedMsg::new(55, 7)));
                },
                other => panic!("unexpected state: {:?}", other),
            }
        },
        other => panic!("expected an edit, got: {:?}", other),
    }
}

#[test]
fn pinned_movie_missing_is_terminal() {
    let data = browse_data(None);
    match callback_handle_pinned_movie(data, 20, 42, Ok(None)) {
        PinnedStep::Fail { effect, outcome } => {
            assert!(matches!(effect, Effect::EditMessageText { chat_msg_id: 20, .. }));
            assert!(matches!(outcome, Outcome::Exit));
        },
        other => panic!("unexpected step: {:?}", other),
    }
    let data = browse_data(None);
    match callback_handle_pinned_movie(data, 20, 42, Err(DbError)) {
        PinnedStep::Fail { .. } => {},
        other => panic!("unexpected step: {:?}", other),
    }
}
