//! The per-state interaction handlers: every decision of the conversation
//! state machine, as pure functions from the decoded interaction and the
//! queried store values to render effects and the next state.
//!
//! Store queries and transport calls suspend a handler, so each handler is
//! split at those points: a first function decides and, where outside work
//! is needed, names it (a query descriptor, a step enum variant); a second
//! function takes the result and finishes. The driver in between does the
//! I/O and nothing else.

use vstd::prelude::*;
use crate::callbackdata::{Cbd, CallbackData, CallbackDataCinema, CallbackDataDefault,
    CallbackPinnedMsg};
use crate::dates::{parse_date, parse_date_spec, valid_date, valid_time, Date};
use crate::dialogue::{Effect, Outcome, PrevTarget, State};
use crate::keyboard::{kb_is_cinemas, kb_is_day, kb_is_main, kb_is_movie_links, kb_is_movielist,
    kb_is_ok_or_up, keyboard_cinemas, keyboard_day, keyboard_main, keyboard_movielist,
    keybord_movie_links, ButtonOption, Keyboard, MenuCode};
use crate::numbers::{i32_str_val, is_i32_str, parse_i32};
use crate::store::{description_spec, Cinema, CountQuery, DbError, Movie, MovieShort, PageQuery,
    Session, SessionsQuery};

verus! {

/// The text every failed query or lookup renders before the conversation ends.
pub open spec fn failure_text() -> Seq<char> {
    "Что-то пошло не так"@
}

/// An edit of `msg_id` to the main-menu screen.
pub open spec fn is_main_menu_edit(e: Effect, msg_id: i32) -> bool {
    e matches Effect::EditMessage { chat_msg_id, text, keyboard } && chat_msg_id == msg_id
        && text@ == "Выберите опцию"@ && kb_is_main(&keyboard)
}

/// An edit of `msg_id` to the generic failure text.
pub open spec fn is_failure_edit(e: Effect, msg_id: i32) -> bool {
    e matches Effect::EditMessageText { chat_msg_id, text } && chat_msg_id == msg_id && text@
        == failure_text()
}

fn failure_edit(msg_id: i32) -> (r: Effect)
    ensures
        is_failure_edit(r, msg_id),
{
    Effect::EditMessageText { chat_msg_id: msg_id, text: String::from_str("Что-то пошло не так") }
}

/// Re-renders the message into the main menu and moves the conversation to
/// the option choice for `date`.
pub fn restart_mainmenu(msg_id: i32, date: Date) -> (r: (Effect, State))
    ensures
        is_main_menu_edit(r.0, msg_id),
        r.1 == (State::StartOption { date }),
{
    let keyboard = keyboard_main();
    (
        Effect::EditMessage {
            chat_msg_id: msg_id,
            text: String::from_str("Выберите опцию"),
            keyboard,
        },
        State::StartOption { date },
    )
}

/// Re-renders the message into the day choice over the three days handed
/// in, and moves the conversation back to its entry state.
pub fn restart_dayoption(msg_id: i32, today: &Date, tomorrow: &Date, after: &Date) -> (r: (
    Effect,
    State,
))
    requires
        valid_date(*today),
        valid_date(*tomorrow),
        valid_date(*after),
    ensures
        (r.0 matches Effect::EditMessage { chat_msg_id, text, keyboard } && chat_msg_id == msg_id
            && text@ == "Выберите день"@ && kb_is_day(&keyboard, *today, *tomorrow, *after)),
        r.1 == State::DayOption,
{
    let keyboard = keyboard_day(today, tomorrow, after);
    (
        Effect::EditMessage {
            chat_msg_id: msg_id,
            text: String::from_str("Выберите день"),
            keyboard,
        },
        State::DayOption,
    )
}

/// Handles a press while the day choice is shown: a close control deletes
/// the menu, a date payload moves on to the option choice, and anything
/// else ends the conversation.
pub fn cb_handle_day_option(raw_option: &str, msg_id: i32) -> (r: (Vec<Effect>, Outcome))
    ensures
        (is_i32_str(raw_option@) && ButtonOption::from_code_spec(i32_str_val(raw_option@))
            == Some(ButtonOption::Close)) ==> r.0@.len() == 1 && r.0@[0] == (
        Effect::DeleteMessage { chat_msg_id: msg_id }) && r.1 == Outcome::Exit,
        (is_i32_str(raw_option@) && ButtonOption::from_code_spec(i32_str_val(raw_option@))
            != Some(ButtonOption::Close)) ==> r.0@.len() == 0 && r.1 == Outcome::Exit,
        !is_i32_str(raw_option@) ==> (parse_date_spec(raw_option@) matches Some(date)
            ==> r.0@.len() == 1 && is_main_menu_edit(r.0@[0], msg_id) && r.1 == Outcome::Update(
            State::StartOption { date },
        )),
        (!is_i32_str(raw_option@) && parse_date_spec(raw_option@) is None) ==> r.0@.len() == 0
            && r.1 == Outcome::Exit,
{
    let mut effects: Vec<Effect> = Vec::new();
    match parse_i32(raw_option) {
        Some(option) => {
            match ButtonOption::from_code(option) {
                Some(ButtonOption::Close) => {
                    effects.push(Effect::DeleteMessage { chat_msg_id: msg_id });
                    (effects, Outcome::Exit)
                },
                _ => (effects, Outcome::Exit),
            }
        },
        None => {
            match parse_date(raw_option) {
                Some(date) => {
                    let (effect, state) = restart_mainmenu(msg_id, date);
                    effects.push(effect);
                    (effects, Outcome::Update(state))
                },
                None => (effects, Outcome::Exit),
            }
        },
    }
}

/// What handling a press on the start menu asks for next.
#[derive(Debug)]
pub enum StartStep {
    /// Nothing outside is needed: perform these effects, persist this
    /// outcome.
    Done { effects: Vec<Effect>, outcome: Outcome },
    /// Show the day menu again (the caller supplies the three days).
    DayMenu,
    /// Run the list-render flow over all movies with this fresh context.
    Movielist { data: CallbackDataDefault },
    /// Query the cinema list, then continue with
    /// [`cb_start_option_cinemas`].
    AskCinemas { date: Date },
}

/// Handles a press on the start menu.
pub fn cb_handle_start_option(option: i32, date: Date, msg_id: i32, db_items_per_page: i64) -> (r:
    StartStep)
    requires
        db_items_per_page >= 1,
    ensures
        ButtonOption::from_code_spec(option as int) == Some(ButtonOption::Close) ==> (r matches
        StartStep::Done { effects, outcome } && effects@.len() == 1 && effects@[0] == (
        Effect::DeleteMessage { chat_msg_id: msg_id }) && outcome == Outcome::Exit),
        ButtonOption::from_code_spec(option as int) == Some(ButtonOption::Up) ==> r matches
            StartStep::DayMenu,
        ButtonOption::from_code_spec(option as int) == Some(ButtonOption::Movies) ==> r == (
        StartStep::Movielist {
            data: CallbackData {
                date,
                id_msg: msg_id,
                pinned_msg: None,
                db_current_page: 1i64,
                db_items_per_page,
                db_total_pages: 0i64,
                cinema: (),
            },
        }),
        ButtonOption::from_code_spec(option as int) == Some(ButtonOption::Cinemas) ==> r == (
        StartStep::AskCinemas { date }),
        !(ButtonOption::from_code_spec(option as int) matches Some(
            o,
        ) && (o == ButtonOption::Close || o == ButtonOption::Up || o == ButtonOption::Movies || o
            == ButtonOption::Cinemas)) ==> (r matches StartStep::Done { effects, outcome }
            && effects@.len() == 0 && outcome == Outcome::Exit),
{
    match ButtonOption::from_code(option) {
        Some(ButtonOption::Close) => {
            let mut effects: Vec<Effect> = Vec::new();
            effects.push(Effect::DeleteMessage { chat_msg_id: msg_id });
            StartStep::Done { effects, outcome: Outcome::Exit }
        },
        Some(ButtonOption::Up) => StartStep::DayMenu,
        Some(ButtonOption::Movies) => StartStep::Movielist {
            data: CallbackDataDefault::new(date, msg_id, None, db_items_per_page),
        },
        Some(ButtonOption::Cinemas) => StartStep::AskCinemas { date },
        _ => StartStep::Done { effects: Vec::new(), outcome: Outcome::Exit },
    }
}

/// Finishes the "by cinema" branch of the start menu once the cinema list
/// is in hand: a non-empty list renders the cinema choice, an empty one an
/// absence note (both stay in the cinema-choice state), and a failed query
/// renders the generic failure and ends the conversation.
pub fn cb_start_option_cinemas(
    date: Date,
    msg_id: i32,
    cinemas: Result<Option<Vec<Cinema>>, DbError>,
) -> (r: (Effect, Outcome))
    ensures
        cinemas matches Ok(Some(cs)) ==> (r.0 matches Effect::EditMessage {
            chat_msg_id,
            text,
            keyboard,
        } && chat_msg_id == msg_id && text@ == "Выберите кинотеатр"@ && kb_is_cinemas(
            &keyboard,
            cs@,
        )) && r.1 == Outcome::Update(State::Cinemas { date }),
        cinemas matches Ok(None) ==> (r.0 matches Effect::EditMessage {
            chat_msg_id,
            text,
            keyboard,
        } && chat_msg_id == msg_id && text@ == "Нету доступных кинотеатров для показа"@
            && kb_is_ok_or_up(&keyboard, MenuCode::Cinemas)) && r.1 == Outcome::Update(
            State::Cinemas { date },
        ),
        cinemas is Err ==> is_failure_edit(r.0, msg_id) && r.1 == Outcome::Exit,
{
    match cinemas {
        Ok(Some(cs)) => {
            let keyboard = keyboard_cinemas(cs);
            (
                Effect::EditMessage {
                    chat_msg_id: msg_id,
                    text: String::from_str("Выберите кинотеатр"),
                    keyboard,
                },
                Outcome::Update(State::Cinemas { date }),
            )
        },
        Ok(None) => {
            let keyboard = crate::keyboard::keyboard_ok_or_up(MenuCode::Cinemas);
            (
                Effect::EditMessage {
                    chat_msg_id: msg_id,
                    text: String::from_str("Нету доступных кинотеатров для показа"),
                    keyboard,
                },
                Outcome::Update(State::Cinemas { date }),
            )
        },
        Err(_) => (failure_edit(msg_id), Outcome::Exit),
    }
}

/// What handling a press on the cinema choice asks for next.
#[derive(Debug)]
pub enum CinemasStep {
    Done { effects: Vec<Effect>, outcome: Outcome },
    /// Look the cinema's name up, then continue with
    /// [`cb_cinemas_selected`].
    AskCinemaName { cinema_id: i32 },
}

/// Handles a press on the cinema choice: close deletes, up returns to the
/// main menu, a positive payload selects that cinema, anything else ends
/// the conversation.
pub fn cb_handle_cinemas(option: i32, date: Date, msg_id: i32) -> (r: CinemasStep)
    ensures
        ButtonOption::from_code_spec(option as int) == Some(ButtonOption::Close) ==> (r matches
        CinemasStep::Done { effects, outcome } && effects@.len() == 1 && effects@[0] == (
        Effect::DeleteMessage { chat_msg_id: msg_id }) && outcome == Outcome::Exit),
        ButtonOption::from_code_spec(option as int) == Some(ButtonOption::Up) ==> (r matches
        CinemasStep::Done { effects, outcome } && effects@.len() == 1 && is_main_menu_edit(
            effects@[0],
            msg_id,
        ) && outcome == Outcome::Update(State::StartOption { date })),
        (ButtonOption::from_code_spec(option as int) matches Some(o) && o != ButtonOption::Close
            && o != ButtonOption::Up) ==> (r matches CinemasStep::Done { effects, outcome }
            && effects@.len() == 0 && outcome == Outcome::Exit),
        ButtonOption::from_code_spec(option as int) is None && option > 0 ==> r == (
        CinemasStep::AskCinemaName { cinema_id: option }),
        ButtonOption::from_code_spec(option as int) is None && option <= 0 ==> (r matches
        CinemasStep::Done { effects, outcome } && effects@.len() == 0 && outcome == Outcome::Exit),
{
    match ButtonOption::from_code(option) {
        Some(ButtonOption::Close) => {
            let mut effects: Vec<Effect> = Vec::new();
            effects.push(Effect::DeleteMessage { chat_msg_id: msg_id });
            CinemasStep::Done { effects, outcome: Outcome::Exit }
        },
        Some(ButtonOption::Up) => {
            let (effect, state) = restart_mainmenu(msg_id, date);
            let mut effects: Vec<Effect> = Vec::new();
            effects.push(effect);
            CinemasStep::Done { effects, outcome: Outcome::Update(state) }
        },
        Some(_) => CinemasStep::Done { effects: Vec::new(), outcome: Outcome::Exit },
        None => {
            if option > 0 {
                CinemasStep::AskCinemaName { cinema_id: option }
            } else {
                CinemasStep::Done { effects: Vec::new(), outcome: Outcome::Exit }
            }
        },
    }
}

/// What follows once the selected cinema's name is in hand.
#[derive(Debug)]
pub enum CinemaSelect {
    /// Run the list-render flow for this cinema with this fresh context.
    Movielist { data: CallbackDataCinema },
    /// The cinema is gone or the query failed: perform the effect, drop the
    /// conversation.
    Fail { effect: Effect, outcome: Outcome },
}

/// Finishes a cinema selection: a found name builds the fresh browse
/// context, a missing one or a failed query renders the generic failure
/// and ends the conversation.
pub fn cb_cinemas_selected(
    date: Date,
    msg_id: i32,
    cinema_id: i32,
    db_items_per_page: i64,
    cinema_name: Result<Option<String>, DbError>,
) -> (r: CinemaSelect)
    requires
        db_items_per_page >= 1,
    ensures
        cinema_name matches Ok(Some(name)) ==> r == (CinemaSelect::Movielist {
            data: CallbackData {
                date,
                id_msg: msg_id,
                pinned_msg: None,
                db_current_page: 1i64,
                db_items_per_page,
                db_total_pages: 0i64,
                cinema: Cinema { id: cinema_id, name },
            },
        }),
        !(cinema_name matches Ok(Some(_))) ==> (r matches CinemaSelect::Fail { effect, outcome }
            && is_failure_edit(effect, msg_id) && outcome == Outcome::Exit),
{
    match cinema_name {
        Ok(Some(name)) => {
            let cinema = Cinema::new(cinema_id, name);
            CinemaSelect::Movielist {
                data: CallbackDataCinema::new(date, cinema, msg_id, None, db_items_per_page),
            }
        },
        _ => CinemaSelect::Fail { effect: failure_edit(msg_id), outcome: Outcome::Exit },
    }
}

/// The deletions owed when a browse list closes: the list message, and the
/// pinned detail when one is shown.
pub open spec fn close_effects_ok<T>(effects: Seq<Effect>, data: CallbackData<T>) -> bool {
    match data.pinned_msg {
        Some(p) => effects.len() == 2 && effects[0] == (Effect::DeleteMessage {
            chat_msg_id: data.id_msg,
        }) && effects[1] == (Effect::DeleteMessage { chat_msg_id: p.id_msg }),
        None => effects.len() == 1 && effects[0] == (Effect::DeleteMessage {
            chat_msg_id: data.id_msg,
        }),
    }
}

/// The deletion owed on the way up: the pinned detail when one is shown.
pub open spec fn delete_pinned_ok<T>(effects: Seq<Effect>, data: CallbackData<T>) -> bool {
    match data.pinned_msg {
        Some(p) => effects.len() == 1 && effects[0] == (Effect::DeleteMessage {
            chat_msg_id: p.id_msg,
        }),
        None => effects.len() == 0,
    }
}

/// What handling a press on a browse list asks for next.
#[derive(Debug)]
pub enum PressedStep<T> {
    /// Nothing outside is needed.
    Done { effects: Vec<Effect>, outcome: Outcome },
    /// A page turn: run the list-render flow.
    Movielist { option: ButtonOption, data: CallbackData<T> },
    /// Fetch the pinned movie's sessions, then continue with
    /// [`show_sessions_step`].
    Sessions { query: SessionsQuery, data: CallbackData<T> },
    /// Going up from a by-cinema list: perform the effects, query the
    /// cinema list anew, then continue with [`cb_start_option_cinemas`].
    PrevCinemas { effects: Vec<Effect>, date: Date },
    /// A movie was selected: run the pinned-detail flow.
    PinnedMovie { movie_id: i32, data: CallbackData<T> },
}

/// Handles a press on a browse list: page turns, closing, the sessions
/// alert, going up one level, and movie selection, told apart by the
/// two-stage control-then-id reading of the payload.
pub fn cb_handle_pressed_button<T>(option: i32, msg_id: i32, data: CallbackData<T>) -> (r:
    PressedStep<T>) where CallbackData<T>: Cbd
    requires
        ButtonOption::from_code_spec(option as int) == Some(ButtonOption::Sessions)
            ==> data.pinned_msg is Some,
    ensures
        ButtonOption::from_code_spec(option as int) == Some(ButtonOption::Back) ==> r == (
        PressedStep::Movielist { option: ButtonOption::Back, data }),
        ButtonOption::from_code_spec(option as int) == Some(ButtonOption::Forward) ==> r == (
        PressedStep::Movielist { option: ButtonOption::Forward, data }),
        ButtonOption::from_code_spec(option as int) == Some(ButtonOption::Close) ==> (r matches
        PressedStep::Done { effects, outcome } && close_effects_ok(effects@, data) && outcome
            == Outcome::Exit),
        ButtonOption::from_code_spec(option as int) == Some(ButtonOption::Sessions) ==> r == (
        PressedStep::Sessions { query: data.sessions_query_spec(), data }),
        (ButtonOption::from_code_spec(option as int) == Some(ButtonOption::Up)
            && CallbackData::<T>::prev_target_spec() == PrevTarget::MainMenu) ==> (r matches
        PressedStep::Done { effects, outcome } && effects@.len() == (
        if data.pinned_msg is Some {
            2int
        } else {
            1int
        }) && delete_pinned_ok(effects@.take(effects@.len() - 1), data) && is_main_menu_edit(
            effects@[effects@.len() - 1],
            msg_id,
        ) && outcome == Outcome::Update(State::StartOption { date: data.date })),
        (ButtonOption::from_code_spec(option as int) == Some(ButtonOption::Up)
            && CallbackData::<T>::prev_target_spec() == PrevTarget::CinemaMenu) ==> (r matches
        PressedStep::PrevCinemas { effects, date } && delete_pinned_ok(effects@, data) && date
            == data.date),
        (ButtonOption::from_code_spec(option as int) matches Some(o) && o != ButtonOption::Back
            && o != ButtonOption::Forward && o != ButtonOption::Close && o != ButtonOption::Sessions
            && o != ButtonOption::Up) ==> (r matches PressedStep::Done { effects, outcome }
            && effects@.len() == 0 && outcome == Outcome::Keep),
        ButtonOption::from_code_spec(option as int) is None && option > 0 ==> r == (
        PressedStep::PinnedMovie { movie_id: option, data }),
        ButtonOption::from_code_spec(option as int) is None && option <= 0 ==> (r matches
        PressedStep::Done { effects, outcome } && effects@.len() == 0 && outcome == Outcome::Keep),
{
    match ButtonOption::from_code(option) {
        Some(ButtonOption::Back) => PressedStep::Movielist { option: ButtonOption::Back, data },
        Some(ButtonOption::Forward) => PressedStep::Movielist {
            option: ButtonOption::Forward,
            data,
        },
        Some(ButtonOption::Close) => {
            let mut effects: Vec<Effect> = Vec::new();
            effects.push(Effect::DeleteMessage { chat_msg_id: data.id_msg });
            match data.pinned_msg {
                Some(p) => {
                    effects.push(Effect::DeleteMessage { chat_msg_id: p.id_msg });
                },
                None => {},
            }
            PressedStep::Done { effects, outcome: Outcome::Exit }
        },
        Some(ButtonOption::Sessions) => {
            let query = data.sessions_query();
            PressedStep::Sessions { query, data }
        },
        Some(ButtonOption::Up) => {
            let mut effects: Vec<Effect> = Vec::new();
            match data.pinned_msg {
                Some(p) => {
                    effects.push(Effect::DeleteMessage { chat_msg_id: p.id_msg });
                },
                None => {},
            }
            match data.prev_target() {
                PrevTarget::MainMenu => {
                    let ghost deletions = effects@;
                    let (effect, state) = restart_mainmenu(msg_id, data.date);
                    effects.push(effect);
                    proof {
                        assert(effects@.take(effects@.len() - 1) =~= deletions);
                    }
                    PressedStep::Done { effects, outcome: Outcome::Update(state) }
                },
                PrevTarget::CinemaMenu => PressedStep::PrevCinemas { effects, date: data.date },
            }
        },
        Some(_) => PressedStep::Done { effects: Vec::new(), outcome: Outcome::Keep },
        None => {
            if option > 0 {
                PressedStep::PinnedMovie { movie_id: option, data }
            } else {
                PressedStep::Done { effects: Vec::new(), outcome: Outcome::Keep }
            }
        },
    }
}

/// Finishes the sessions alert once the sessions are in hand: answers the
/// press with the context's transient text and keeps the stored state; a
/// failed query renders the generic failure and ends the conversation.
pub fn show_sessions_step<T>(
    data: CallbackData<T>,
    msg_id: i32,
    sessions: Result<Option<Vec<Session>>, DbError>,
) -> (r: (Effect, Outcome)) where CallbackData<T>: Cbd
    requires
        (match sessions {
            Ok(Some(v)) => forall|i: int|
                0 <= i < v@.len() ==> valid_time(#[trigger] v@[i].showtime),
            _ => true,
        }),
    ensures
        sessions matches Ok(s) ==> (r.0 matches Effect::AnswerAlert { text } && text@
            == data.sessions_text_spec(s)) && r.1 == Outcome::Keep,
        sessions is Err ==> is_failure_edit(r.0, msg_id) && r.1 == Outcome::Exit,
{
    match sessions {
        Ok(s) => {
            let text = data.show_sessions(s);
            (Effect::AnswerAlert { text }, Outcome::Keep)
        },
        Err(_) => (failure_edit(msg_id), Outcome::Exit),
    }
}

/// Starts the list-render flow: tries the page turn and, when it is
/// admissible, steps the cursor and names the count and page queries the
/// render needs. `None` is the silent no-op of a press on an inert arrow:
/// the caller must skip the render entirely.
pub fn movielist_prepare<T>(data: &mut CallbackData<T>, option: ButtonOption) -> (r: Option<
    (CountQuery, PageQuery),
>) where CallbackData<T>: Cbd
    requires
        old(data).cursor_wf(),
    ensures
        r is None ==> !old(data).can_step_spec(option) && *final(data) == *old(data),
        r matches Some(qs) ==> old(data).can_step_spec(option) && *final(data) == (CallbackData {
            db_current_page: (old(data).db_current_page + CallbackData::<T>::step_delta(
                option,
            )) as i64,
            ..*old(data)
        }) && qs.0 == final(data).count_query_spec() && qs.1 == final(data).page_query_spec(),
{
    if data.set_current_page(option) {
        Some((data.count_query(), data.page_query()))
    } else {
        None
    }
}

/// Finishes the list render once the snapshot of count and page is in
/// hand: reconciles the cursor against the fresh count, then renders the
/// listing, or the context's absence text with the ok/up controls when the
/// page is empty, and persists the reconciled context either way. A failed
/// snapshot renders the generic failure and ends the conversation.
pub fn callback_handle_movielist<T>(
    data: CallbackData<T>,
    msg_id: i32,
    today: &Date,
    queried: Result<(i64, Option<Vec<MovieShort>>), DbError>,
) -> (r: (Effect, Outcome)) where CallbackData<T>: Cbd
    requires
        data.db_items_per_page >= 1,
        queried matches Ok(q) ==> q.0 >= 0,
    ensures
        queried is Err ==> is_failure_edit(r.0, msg_id) && r.1 == Outcome::Exit,
        queried matches Ok(q) ==> (q.1 matches Some(movies) ==> (r.0 matches Effect::EditMessage {
            chat_msg_id,
            text,
            keyboard,
        } && chat_msg_id == data.id_msg && text@ == data.reconciled(q.0 as int).headline_spec(*today) && kb_is_movielist(
            &keyboard,
            movies@,
            CallbackData::<T>::menu_code_spec(),
            data.reconciled(q.0 as int).db_current_page as int,
            data.reconciled(q.0 as int).db_total_pages as int,
        )) && r.1 == Outcome::Update(data.reconciled(q.0 as int).state_spec())),
        queried matches Ok(q) ==> (q.1 is None ==> (r.0 matches Effect::EditMessage {
            chat_msg_id,
            text,
            keyboard,
        } && chat_msg_id == msg_id && text@ == data.reconciled(q.0 as int).absence_spec() && kb_is_ok_or_up(
            &keyboard,
            CallbackData::<T>::menu_code_spec(),
        )) && r.1 == Outcome::Update(data.reconciled(q.0 as int).state_spec())),
{
    let mut data = data;
    match queried {
        Err(_) => (failure_edit(msg_id), Outcome::Exit),
        Ok((count, movies)) => {
            data.set_total_pages(count);
            match movies {
                Some(movies) => {
                    let keyboard = keyboard_movielist(
                        movies,
                        data.get_menu_code(),
                        data.db_current_page,
                        data.db_total_pages,
                    );
                    let text = data.headline_text(today);
                    let chat_msg_id = data.id_msg;
                    (
                        Effect::EditMessage { chat_msg_id, text, keyboard },
                        Outcome::Update(data.state_update()),
                    )
                },
                None => {
                    let (text, keyboard) = data.get_data_for_absence_answer();
                    (
                        Effect::EditMessage { chat_msg_id: msg_id, text, keyboard },
                        Outcome::Update(data.state_update()),
                    )
                },
            }
        },
    }
}

/// Whether selecting this movie needs a render at all: it does not when
/// the pinned detail already shows it. The same-item guard that makes
/// repeated selection idempotent.
pub open spec fn pinned_needs_render<T>(data: &CallbackData<T>, db_movie_id: i32) -> bool {
    !(data.pinned_msg matches Some(p) && p.db_id_movie == db_movie_id)
}

/// The run-time check for [`pinned_needs_render`]; when it returns false
/// the caller must fetch nothing and render nothing.
pub fn pinned_movie_fresh<T>(data: &CallbackData<T>, db_movie_id: i32) -> (r: bool)
    ensures
        r == pinned_needs_render(data, db_movie_id),
{
    match data.pinned_msg {
        Some(p) => p.db_id_movie != db_movie_id,
        None => true,
    }
}

/// Selecting the movie that a just-updated pinned detail shows asks for no
/// further render, whatever the context held before: the guard goes false
/// on the updated context.
pub proof fn lemma_pinned_select_idempotent<T>(
    data: CallbackData<T>,
    pinned_msg_id: i32,
    db_movie_id: i32,
)
    ensures
        !pinned_needs_render(
            &(CallbackData {
                pinned_msg: Some(
                    CallbackPinnedMsg { id_msg: pinned_msg_id, db_id_movie: db_movie_id },
                ),
                ..data
            }),
            db_movie_id,
        ),
{
}

/// What the pinned-detail render asks for next.
#[derive(Debug)]
pub enum PinnedStep<T> {
    /// The movie is gone or the query failed: perform the effect, drop the
    /// conversation.
    Fail { effect: Effect, outcome: Outcome },
    /// A pinned detail already existed: it was edited in place; persist
    /// this state.
    Edited { effect: Effect, state: State },
    /// No pinned detail existed yet: send this message, then commit the
    /// new detail with [`pinned_movie_commit`].
    SendNew { text: String, keyboard: Keyboard, data: CallbackData<T> },
}

pub open spec fn opt_string_view(o: Option<String>) -> Option<Seq<char>> {
    match o {
        Some(s) => Some(s@),
        None => None,
    }
}

/// Renders the detail of a newly selected movie once it is in hand:
/// editing the existing pinned message in place, or asking for a new one
/// to be sent; a missing movie or a failed query renders the generic
/// failure and ends the conversation.
pub fn callback_handle_pinned_movie<T>(
    data: CallbackData<T>,
    msg_id: i32,
    db_movie_id: i32,
    movie: Result<Option<Movie>, DbError>,
) -> (r: PinnedStep<T>) where CallbackData<T>: Cbd
    requires
        pinned_needs_render(&data, db_movie_id),
    ensures
        !(movie matches Ok(Some(_))) ==> (r matches PinnedStep::Fail { effect, outcome }
            && is_failure_edit(effect, msg_id) && outcome == Outcome::Exit),
        movie matches Ok(Some(m)) ==> (data.pinned_msg matches Some(p) ==> (r matches
        PinnedStep::Edited { effect, state } && (effect matches Effect::EditMessage {
            chat_msg_id,
            text,
            keyboard,
        } && chat_msg_id == p.id_msg && text@ == description_spec(&m) && kb_is_movie_links(
            &keyboard,
            opt_string_view(m.href_moskino),
            opt_string_view(m.href_kinopoisk),
            CallbackData::<T>::menu_code_spec(),
        )) && state == (CallbackData {
            pinned_msg: Some(CallbackPinnedMsg { id_msg: p.id_msg, db_id_movie: db_movie_id }),
            ..data
        }).state_spec())),
        movie matches Ok(Some(m)) ==> (data.pinned_msg is None ==> (r matches PinnedStep::SendNew {
            text,
            keyboard,
            data: d,
        } && text@ == description_spec(&m) && kb_is_movie_links(
            &keyboard,
            opt_string_view(m.href_moskino),
            opt_string_view(m.href_kinopoisk),
            CallbackData::<T>::menu_code_spec(),
        ) && d == data)),
{
    match movie {
        Ok(Some(m)) => {
            let text = m.description();
            let href_mk = match m.href_moskino {
                Some(ref s) => Some(s.as_str()),
                None => None,
            };
            let href_kp = match m.href_kinopoisk {
                Some(ref s) => Some(s.as_str()),
                None => None,
            };
            let keyboard = keybord_movie_links(href_mk, href_kp, data.get_menu_code());
            match data.pinned_msg {
                Some(p) => {
                    let mut data = data;
                    data.pinned_msg = Some(CallbackPinnedMsg::new(p.id_msg, db_movie_id));
                    let effect = Effect::EditMessage { chat_msg_id: p.id_msg, text, keyboard };
                    PinnedStep::Edited { effect, state: data.state_update() }
                },
                None => PinnedStep::SendNew { text, keyboard, data },
            }
        },
        _ => PinnedStep::Fail { effect: failure_edit(msg_id), outcome: Outcome::Exit },
    }
}

/// Commits a freshly sent pinned detail: the new message and movie ids
/// become the context's pinned tracker, and the updated context persists.
pub fn pinned_movie_commit<T>(data: CallbackData<T>, sent_msg_id: i32, db_movie_id: i32) -> (r:
    State) where CallbackData<T>: Cbd
    ensures
        r == (CallbackData {
            pinned_msg: Some(CallbackPinnedMsg { id_msg: sent_msg_id, db_id_movie: db_movie_id }),
            ..data
        }).state_spec(),
{
    let mut data = data;
    data.pinned_msg = Some(CallbackPinnedMsg::new(sent_msg_id, db_movie_id));
    data.state_update()
}

} // verus!
