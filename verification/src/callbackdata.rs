//! Per-conversation browse data: the pagination cursor, the pinned detail
//! tracker, and the two browse contexts ("all movies" and "by cinema")
//! behind one capability trait.

use vstd::prelude::*;
use crate::dates::{format_ru_date, ru_date_label, time_token, valid_time, Date};
use crate::dialogue::{PrevTarget, State};
use crate::keyboard::{kb_is_ok_or_up, keyboard_ok_or_up, ButtonOption, Keyboard, MenuCode};
use crate::numbers::{dec_int, i32_to_string};
use crate::store::{Cinema, CountQuery, PageQuery, Session, SessionsQuery};

verus! {

/// The pinned detail message under the list: which message it is and which
/// movie it currently shows.
#[derive(Debug, Copy, Clone, PartialEq, Eq, Structural)]
pub struct CallbackPinnedMsg {
    pub id_msg: i32,
    pub db_id_movie: i32,
}

impl CallbackPinnedMsg {
    pub fn new(id_msg: i32, db_id_movie: i32) -> (r: Self)
        ensures
            r == (CallbackPinnedMsg { id_msg, db_id_movie }),
    {
        Self { id_msg, db_id_movie }
    }
}

/// Everything a browse list needs between interactions: the chosen date,
/// the message showing the list, the pagination cursor, the cinema when
/// browsing by cinema, and the pinned detail if one is shown.
#[derive(Debug, Clone)]
pub struct CallbackData<T> {
    /// The selected date.
    pub date: Date,
    /// The message rendering the list.
    pub id_msg: i32,
    /// The page currently shown, starting at one.
    pub db_current_page: i64,
    /// How many pages the last reconciled count gave; zero before the first
    /// reconciliation.
    pub db_total_pages: i64,
    /// How many movies one page holds.
    pub db_items_per_page: i64,
    /// Nothing for the all-movies browse, the chosen cinema otherwise.
    pub cinema: T,
    /// The pinned detail message, if one is shown.
    pub pinned_msg: Option<CallbackPinnedMsg>,
}

pub type CallbackDataDefault = CallbackData<()>;

pub type CallbackDataCinema = CallbackData<Cinema>;

/// Pages needed for `count` items at `per` items per page, rounding up.
pub open spec fn ceil_div(count: int, per: int) -> int {
    count / per + if count % per != 0 {
        1int
    } else {
        0int
    }
}

impl<T> CallbackData<T> {
    /// The cursor invariant: the page size is positive and the current page
    /// stays between one and the last page (page one when there are none).
    pub open spec fn cursor_wf(&self) -> bool {
        &&& self.db_items_per_page >= 1
        &&& self.db_total_pages >= 0
        &&& 1 <= self.db_current_page
        &&& self.db_current_page <= self.db_total_pages || self.db_current_page == 1
    }

    /// This cursor after reconciling against a fresh item count: the page
    /// total recomputed, and the current page reset to one exactly when the
    /// total changed.
    pub open spec fn reconciled(self, count: int) -> CallbackData<T> {
        let total = ceil_div(count, self.db_items_per_page as int);
        if total != self.db_total_pages {
            CallbackData {
                db_current_page: 1,
                db_total_pages: total as i64,
                ..self
            }
        } else {
            self
        }
    }

    /// Recomputes the page count from a fresh item count; when it differs
    /// from the stored one the backing set changed shape, so the stale page
    /// position is discarded and the cursor returns to page one.
    pub fn set_total_pages(&mut self, db_movies_count: i64)
        requires
            0 <= db_movies_count,
            old(self).db_items_per_page >= 1,
        ensures
            *final(self) == old(self).reconciled(db_movies_count as int),
            final(self).db_total_pages == ceil_div(
                db_movies_count as int,
                old(self).db_items_per_page as int,
            ),
            final(self).db_total_pages != old(self).db_total_pages
                ==> final(self).db_current_page == 1,
            final(self).db_total_pages == old(self).db_total_pages
                ==> final(self).db_current_page == old(self).db_current_page,
            old(self).cursor_wf() ==> final(self).cursor_wf(),
    {
        let quot = db_movies_count / self.db_items_per_page;
        let rem = db_movies_count % self.db_items_per_page;
        proof {
            vstd::arithmetic::div_mod::lemma_fundamental_div_mod(
                db_movies_count as int,
                self.db_items_per_page as int,
            );
            assert(quot >= 0 && (rem != 0 ==> quot + 1 <= i64::MAX)) by (nonlinear_arith)
                requires
                    self.db_items_per_page >= 1,
                    0 <= db_movies_count <= i64::MAX,
                    db_movies_count as int == self.db_items_per_page as int * (
                    db_movies_count as int / self.db_items_per_page as int) + db_movies_count as int
                        % self.db_items_per_page as int,
                    quot == db_movies_count as int / self.db_items_per_page as int,
                    rem == db_movies_count as int % self.db_items_per_page as int,
                    rem >= 0,
            ;
        }
        let db_current_total_pages = if rem != 0 {
            quot + 1
        } else {
            quot
        };
        if self.db_total_pages != db_current_total_pages {
            self.db_current_page = 1;
            self.db_total_pages = db_current_total_pages;
        }
    }

    /// Whether a step in this direction is admissible: back is inert on page
    /// one, forward is inert on the last page.
    pub open spec fn can_step_spec(&self, option: ButtonOption) -> bool {
        !((self.db_current_page == 1 && option == ButtonOption::Back) || (
        self.db_current_page == self.db_total_pages && option
            == ButtonOption::Forward))
    }

    /// How far one admissible press moves the page.
    pub open spec fn step_delta(option: ButtonOption) -> int {
        match option {
            ButtonOption::Back => -1,
            ButtonOption::Forward => 1,
            _ => 0,
        }
    }

    /// Tries to turn the page. The sole admission check for page turns:
    /// `false` means the press hit a boundary and nothing changed, and the
    /// caller must skip every further step of the render.
    pub fn set_current_page(&mut self, option: ButtonOption) -> (r: bool)
        requires
            old(self).cursor_wf(),
        ensures
            r == old(self).can_step_spec(option),
            !r ==> *final(self) == *old(self),
            r ==> *final(self) == (CallbackData {
                db_current_page: (old(self).db_current_page + Self::step_delta(option)) as i64,
                ..*old(self)
            }),
            old(self).db_total_pages >= 1 ==> final(self).cursor_wf(),
    {
        if self.can_step(option) {
            self.db_current_page += match option {
                ButtonOption::Back => -1i64,
                ButtonOption::Forward => 1i64,
                _ => 0i64,
            };
            return true;
        }
        false
    }

    fn can_step(&self, move_option: ButtonOption) -> (r: bool)
        ensures
            r == self.can_step_spec(move_option),
    {
        !((self.db_current_page == 1 && move_option == ButtonOption::Back) || (
        self.db_current_page == self.db_total_pages && move_option
            == ButtonOption::Forward))
    }
}

impl CallbackDataCinema {
    pub fn new(
        date: Date,
        cinema: Cinema,
        id_msg: i32,
        pinned_msg: Option<CallbackPinnedMsg>,
        db_items_per_page: i64,
    ) -> (r: Self)
        ensures
            r == (CallbackData {
                date,
                id_msg,
                pinned_msg,
                db_current_page: 1i64,
                db_items_per_page,
                db_total_pages: 0i64,
                cinema,
            }),
    {
        Self {
            date,
            id_msg,
            pinned_msg,
            db_current_page: 1,
            db_items_per_page,
            db_total_pages: 0,
            cinema,
        }
    }
}

impl CallbackDataDefault {
    pub fn new(
        date: Date,
        id_msg: i32,
        pinned_msg: Option<CallbackPinnedMsg>,
        db_items_per_page: i64,
    ) -> (r: Self)
        ensures
            r == (CallbackData {
                date,
                id_msg,
                pinned_msg,
                db_current_page: 1i64,
                db_items_per_page,
                db_total_pages: 0i64,
                cinema: (),
            }),
    {
        Self {
            date,
            id_msg,
            pinned_msg,
            db_current_page: 1,
            db_items_per_page,
            db_total_pages: 0,
            cinema: (),
        }
    }
}

/// What `str::to_lowercase` returns; it depends on the characters alone.
pub uninterp spec fn lower_of(s: Seq<char>) -> Seq<char>;

/// Relies on std's `str::to_lowercase` for the Unicode lowercasing of the
/// localized date text.
#[verifier::external_body]
fn lowercase(s: &str) -> (r: String)
    ensures
        r@ == lower_of(s@),
{
    s.to_lowercase()
}

/// One session as the alert shows it: the show time, then the price.
pub open spec fn session_line(s: Session) -> Seq<char> {
    time_token(s.showtime) + " - "@ + dec_int(s.price as int) + " руб."@
}

/// All sessions joined with a separator bar.
pub open spec fn sessions_joined(ss: Seq<Session>) -> Seq<char>
    decreases ss.len(),
{
    if ss.len() == 0 {
        Seq::<char>::empty()
    } else if ss.len() == 1 {
        session_line(ss[0])
    } else {
        sessions_joined(ss.drop_last()) + " | "@ + session_line(ss.last())
    }
}

fn session_line_string(s: &Session) -> (r: String)
    requires
        valid_time(s.showtime),
    ensures
        r@ == session_line(*s),
{
    let mut text = crate::dates::time_to_string(&s.showtime);
    text.append(" - ");
    text.append(i32_to_string(s.price).as_str());
    text.append(" руб.");
    proof {
        assert(text@ =~= session_line(*s));
    }
    text
}

fn sessions_alert_text(sessions: &Vec<Session>) -> (r: String)
    requires
        forall|i: int| 0 <= i < sessions@.len() ==> valid_time(#[trigger] sessions@[i].showtime),
    ensures
        r@ == sessions_joined(sessions@),
{
    let mut s = String::new();
    let mut i: usize = 0;
    while i < sessions.len()
        invariant
            0 <= i <= sessions@.len(),
            forall|k: int| 0 <= k < sessions@.len() ==> valid_time(
                #[trigger] sessions@[k].showtime,
            ),
            s@ == sessions_joined(sessions@.take(i as int)),
        decreases sessions@.len() - i,
    {
        if i > 0 {
            s.append(" | ");
        }
        let line = session_line_string(&sessions[i]);
        s.append(line.as_str());
        proof {
            assert(sessions@.take(i + 1).drop_last() =~= sessions@.take(i as int));
            assert(sessions@.take(i + 1).last() == sessions@[i as int]);
            assert(s@ =~= sessions_joined(sessions@.take(i + 1)));
        }
        i += 1;
    }
    proof {
        assert(sessions@.take(sessions@.len() as int) =~= sessions@);
    }
    s
}

/// The capability set a browse context offers: which menu its tokens use,
/// which store queries it needs, its texts, and where "up" leads. The
/// all-movies and the by-cinema contexts implement it.
pub trait Cbd: Sized {
    /// The menu code of every token this context renders.
    spec fn menu_code_spec() -> MenuCode;

    /// The conversation state that persists this context.
    spec fn state_spec(self) -> State;

    /// The list headline for a given current day.
    spec fn headline_spec(&self, today: Date) -> Seq<char>;

    /// The text shown when the listing is empty.
    spec fn absence_spec(&self) -> Seq<char>;

    /// The transient alert text for the sessions of the pinned movie.
    spec fn sessions_text_spec(&self, sessions: Option<Vec<Session>>) -> Seq<char>;

    /// Where "up" leads from the list.
    spec fn prev_target_spec() -> PrevTarget;

    spec fn count_query_spec(&self) -> CountQuery;

    spec fn page_query_spec(&self) -> PageQuery;

    spec fn sessions_query_spec(&self) -> SessionsQuery;

    fn get_menu_code(&self) -> (r: MenuCode)
        ensures
            r == Self::menu_code_spec(),
    ;

    fn state_update(self) -> (r: State)
        ensures
            r == self.state_spec(),
    ;

    fn headline_text(&self, today: &Date) -> (r: String)
        ensures
            r@ == self.headline_spec(*today),
    ;

    fn get_data_for_absence_answer(&self) -> (r: (String, Keyboard))
        ensures
            r.0@ == self.absence_spec(),
            kb_is_ok_or_up(&r.1, Self::menu_code_spec()),
    ;

    fn show_sessions(&self, sessions: Option<Vec<Session>>) -> (r: String)
        requires
            (match sessions {
                Some(v) => forall|i: int|
                    0 <= i < v@.len() ==> valid_time(#[trigger] v@[i].showtime),
                None => true,
            }),
        ensures
            r@ == self.sessions_text_spec(sessions),
    ;

    fn prev_target(&self) -> (r: PrevTarget)
        ensures
            r == Self::prev_target_spec(),
    ;

    fn count_query(&self) -> (r: CountQuery)
        ensures
            r == self.count_query_spec(),
    ;

    fn page_query(&self) -> (r: PageQuery)
        ensures
            r == self.page_query_spec(),
    ;

    fn sessions_query(&self) -> (r: SessionsQuery)
        ensures
            r == self.sessions_query_spec(),
    ;
}

impl Cbd for CallbackDataDefault {
    open spec fn menu_code_spec() -> MenuCode {
        MenuCode::MovielistDefault
    }

    open spec fn state_spec(self) -> State {
        State::FromMovie { data: self }
    }

    open spec fn headline_spec(&self, today: Date) -> Seq<char> {
        if self.date == today {
            "Сегодня в прокате"@
        } else {
            lower_of(
                ru_date_label(self.date.year as int, self.date.month as int, self.date.day as int)
                    + " в прокате"@,
            )
        }
    }

    open spec fn absence_spec(&self) -> Seq<char> {
        "Нету доступных фильмов для показа"@
    }

    open spec fn sessions_text_spec(&self, sessions: Option<Vec<Session>>) -> Seq<char> {
        "Список может получиться слишком длинным. Посмотрите сеансы перейдя по ссылке на Москино"@
    }

    open spec fn prev_target_spec() -> PrevTarget {
        PrevTarget::MainMenu
    }

    open spec fn count_query_spec(&self) -> CountQuery {
        CountQuery::AllMovies { date: self.date }
    }

    open spec fn page_query_spec(&self) -> PageQuery {
        PageQuery::AllMovies {
            date: self.date,
            page: self.db_current_page,
            per_page: self.db_items_per_page,
        }
    }

    open spec fn sessions_query_spec(&self) -> SessionsQuery {
        match self.pinned_msg {
            Some(p) => SessionsQuery::AllMovies { movie_id: p.db_id_movie, date: self.date },
            None => SessionsQuery::AllMovies { movie_id: 0, date: self.date },
        }
    }

    fn get_menu_code(&self) -> (r: MenuCode) {
        MenuCode::MovielistDefault
    }

    fn state_update(self) -> (r: State) {
        State::FromMovie { data: self }
    }

    fn headline_text(&self, today: &Date) -> (r: String) {
        if self.date == *today {
            String::from_str("Сегодня в прокате")
        } else {
            let mut s = format_ru_date(&self.date);
            s.append(" в прокате");
            lowercase(s.as_str())
        }
    }

    fn get_data_for_absence_answer(&self) -> (r: (String, Keyboard)) {
        let text = String::from_str("Нету доступных фильмов для показа");
        let keyboard = keyboard_ok_or_up(MenuCode::MovielistDefault);
        (text, keyboard)
    }

    fn show_sessions(&self, sessions: Option<Vec<Session>>) -> (r: String) {
        String::from_str(
            "Список может получиться слишком длинным. Посмотрите сеансы перейдя по ссылке на Москино",
        )
    }

    fn prev_target(&self) -> (r: PrevTarget) {
        PrevTarget::MainMenu
    }

    fn count_query(&self) -> (r: CountQuery) {
        CountQuery::AllMovies { date: self.date }
    }

    fn page_query(&self) -> (r: PageQuery) {
        PageQuery::AllMovies {
            date: self.date,
            page: self.db_current_page,
            per_page: self.db_items_per_page,
        }
    }

    fn sessions_query(&self) -> (r: SessionsQuery) {
        match self.pinned_msg {
            Some(p) => SessionsQuery::AllMovies { movie_id: p.db_id_movie, date: self.date },
            None => SessionsQuery::AllMovies { movie_id: 0, date: self.date },
        }
    }
}

impl Cbd for CallbackDataCinema {
    open spec fn menu_code_spec() -> MenuCode {
        MenuCode::MovielistFromCinema
    }

    open spec fn state_spec(self) -> State {
        State::FromCinema { data: self }
    }

    open spec fn headline_spec(&self, today: Date) -> Seq<char> {
        if self.date == today {
            "Сегодня в кинотеатре "@ + self.cinema.name@
        } else {
            lower_of(
                ru_date_label(self.date.year as int, self.date.month as int, self.date.day as int),
            ) + " в кинотеатре "@ + self.cinema.name@
        }
    }

    open spec fn absence_spec(&self) -> Seq<char> {
        "В кинотеатре '"@ + self.cinema.name@ + "' нету доступных фильмов для показа"@
    }

    open spec fn sessions_text_spec(&self, sessions: Option<Vec<Session>>) -> Seq<char> {
        match sessions {
            Some(v) => sessions_joined(v@),
            None => "Нету доступных сеансов"@,
        }
    }

    open spec fn prev_target_spec() -> PrevTarget {
        PrevTarget::CinemaMenu
    }

    open spec fn count_query_spec(&self) -> CountQuery {
        CountQuery::ByCinema { date: self.date, cinema_id: self.cinema.id }
    }

    open spec fn page_query_spec(&self) -> PageQuery {
        PageQuery::ByCinema {
            date: self.date,
            cinema_id: self.cinema.id,
            page: self.db_current_page,
            per_page: self.db_items_per_page,
        }
    }

    open spec fn sessions_query_spec(&self) -> SessionsQuery {
        match self.pinned_msg {
            Some(p) => SessionsQuery::ByCinema {
                movie_id: p.db_id_movie,
                cinema_id: self.cinema.id,
                date: self.date,
            },
            None => SessionsQuery::ByCinema { movie_id: 0, cinema_id: self.cinema.id, date: self.date },
        }
    }

    fn get_menu_code(&self) -> (r: MenuCode) {
        MenuCode::MovielistFromCinema
    }

    fn state_update(self) -> (r: State) {
        State::FromCinema { data: self }
    }

    fn headline_text(&self, today: &Date) -> (r: String) {
        if self.date == *today {
            let mut s = String::from_str("Сегодня в кинотеатре ");
            s.append(self.cinema.name.as_str());
            s
        } else {
            let text_date = lowercase(format_ru_date(&self.date).as_str());
            let mut s = text_date;
            s.append(" в кинотеатре ");
            s.append(self.cinema.name.as_str());
            s
        }
    }

    fn get_data_for_absence_answer(&self) -> (r: (String, Keyboard)) {
        let mut text = String::from_str("В кинотеатре '");
        text.append(self.cinema.name.as_str());
        text.append("' нету доступных фильмов для показа");
        let keyboard = keyboard_ok_or_up(MenuCode::MovielistFromCinema);
        proof {
            assert(text@ =~= self.absence_spec());
        }
        (text, keyboard)
    }

    fn show_sessions(&self, sessions: Option<Vec<Session>>) -> (r: String) {
        match sessions {
            Some(v) => sessions_alert_text(&v),
            None => String::from_str("Нету доступных сеансов"),
        }
    }

    fn prev_target(&self) -> (r: PrevTarget) {
        PrevTarget::CinemaMenu
    }

    fn count_query(&self) -> (r: CountQuery) {
        CountQuery::ByCinema { date: self.date, cinema_id: self.cinema.id }
    }

    fn page_query(&self) -> (r: PageQuery) {
        PageQuery::ByCinema {
            date: self.date,
            cinema_id: self.cinema.id,
            page: self.db_current_page,
            per_page: self.db_items_per_page,
        }
    }

    fn sessions_query(&self) -> (r: SessionsQuery) {
        match self.pinned_msg {
            Some(p) => SessionsQuery::ByCinema {
                movie_id: p.db_id_movie,
                cinema_id: self.cinema.id,
                date: self.date,
            },
            None => SessionsQuery::ByCinema { movie_id: 0, cinema_id: self.cinema.id, date: self.date },
        }
    }
}

} // verus!
