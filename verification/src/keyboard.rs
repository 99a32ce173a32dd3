//! Menus, control codes and the inline keyboards of every screen.
//!
//! A keyboard is a grid of buttons; each callback button carries a wire
//! token built by the codec in [`crate::tools`]. Control codes live in a
//! negative range so they can never collide with the positive item ids the
//! store hands out.

use vstd::prelude::*;
use crate::dates::{date_token, date_to_string, format_ru_day, ru_day_label, valid_date,
    Date};
use crate::numbers::{dec_int, i32_to_string, i64_to_string};
use crate::store::{Cinema, MovieShort};
use crate::tools::{encode_token, token_spec, TokenError};

verus! {

/// Which menu a token belongs to.
#[derive(Debug, Default, PartialEq, Eq, Structural, Clone, Copy)]
pub enum MenuCode {
    #[default]
    ChooseDay,
    MainMenu,
    Cinemas,
    MovielistFromCinema,
    MovielistDefault,
    PinnedMovie,
}

impl MenuCode {
    /// The number a menu writes into its tokens.
    pub open spec fn code_spec(self) -> int {
        match self {
            MenuCode::ChooseDay => 0,
            MenuCode::MainMenu => 1,
            MenuCode::Cinemas => 2,
            MenuCode::MovielistFromCinema => 3,
            MenuCode::MovielistDefault => 4,
            MenuCode::PinnedMovie => 5,
        }
    }

    pub fn code(self) -> (r: i32)
        ensures
            r == self.code_spec(),
    {
        match self {
            MenuCode::ChooseDay => 0,
            MenuCode::MainMenu => 1,
            MenuCode::Cinemas => 2,
            MenuCode::MovielistFromCinema => 3,
            MenuCode::MovielistDefault => 4,
            MenuCode::PinnedMovie => 5,
        }
    }

    /// The menu a number maps back to, if any.
    pub open spec fn from_code_spec(v: int) -> Option<MenuCode> {
        if v == 0 {
            Some(MenuCode::ChooseDay)
        } else if v == 1 {
            Some(MenuCode::MainMenu)
        } else if v == 2 {
            Some(MenuCode::Cinemas)
        } else if v == 3 {
            Some(MenuCode::MovielistFromCinema)
        } else if v == 4 {
            Some(MenuCode::MovielistDefault)
        } else if v == 5 {
            Some(MenuCode::PinnedMovie)
        } else {
            None
        }
    }

    pub fn from_code(v: i32) -> (r: Option<MenuCode>)
        ensures
            r == Self::from_code_spec(v as int),
    {
        if v == 0 {
            Some(MenuCode::ChooseDay)
        } else if v == 1 {
            Some(MenuCode::MainMenu)
        } else if v == 2 {
            Some(MenuCode::Cinemas)
        } else if v == 3 {
            Some(MenuCode::MovielistFromCinema)
        } else if v == 4 {
            Some(MenuCode::MovielistDefault)
        } else if v == 5 {
            Some(MenuCode::PinnedMovie)
        } else {
            None
        }
    }

    /// Accepts an interaction only when its menu is the one the conversation
    /// expects; a mismatch means a stale button and fails with
    /// `MenuMismatch`.
    pub fn check_complience(self, code: MenuCode) -> (r: Result<(), TokenError>)
        ensures
            r is Ok <==> self == code,
            r is Err ==> r == Err::<(), TokenError>(TokenError::MenuMismatch),
    {
        if self != code {
            Err(TokenError::MenuMismatch)
        } else {
            Ok(())
        }
    }
}

/// A control button's code. These stay strictly negative, disjoint from the
/// positive item-id space, so a token payload can always be told apart.
#[derive(Debug, PartialEq, Eq, Structural, Clone, Copy)]
pub enum ButtonOption {
    Day,
    Movies,
    Cinemas,
    Back,
    Forward,
    Up,
    Close,
    Sessions,
    Pages,
    NotSetted,
}

impl ButtonOption {
    /// The number a control writes into its tokens.
    pub open spec fn code_spec(self) -> int {
        match self {
            ButtonOption::Day => -100,
            ButtonOption::Movies => -99,
            ButtonOption::Cinemas => -98,
            ButtonOption::Back => -97,
            ButtonOption::Forward => -96,
            ButtonOption::Up => -95,
            ButtonOption::Close => -94,
            ButtonOption::Sessions => -93,
            ButtonOption::Pages => -92,
            ButtonOption::NotSetted => -91,
        }
    }

    pub fn code(self) -> (r: i32)
        ensures
            r == self.code_spec(),
    {
        match self {
            ButtonOption::Day => -100,
            ButtonOption::Movies => -99,
            ButtonOption::Cinemas => -98,
            ButtonOption::Back => -97,
            ButtonOption::Forward => -96,
            ButtonOption::Up => -95,
            ButtonOption::Close => -94,
            ButtonOption::Sessions => -93,
            ButtonOption::Pages => -92,
            ButtonOption::NotSetted => -91,
        }
    }

    /// The control a number maps back to. `Day` and `NotSetted` never ride
    /// in a token, so they map to nothing.
    pub open spec fn from_code_spec(v: int) -> Option<ButtonOption> {
        if v == -99 {
            Some(ButtonOption::Movies)
        } else if v == -98 {
            Some(ButtonOption::Cinemas)
        } else if v == -97 {
            Some(ButtonOption::Back)
        } else if v == -96 {
            Some(ButtonOption::Forward)
        } else if v == -95 {
            Some(ButtonOption::Up)
        } else if v == -94 {
            Some(ButtonOption::Close)
        } else if v == -93 {
            Some(ButtonOption::Sessions)
        } else if v == -92 {
            Some(ButtonOption::Pages)
        } else {
            None
        }
    }

    pub fn from_code(v: i32) -> (r: Option<ButtonOption>)
        ensures
            r == Self::from_code_spec(v as int),
    {
        if v == -99 {
            Some(ButtonOption::Movies)
        } else if v == -98 {
            Some(ButtonOption::Cinemas)
        } else if v == -97 {
            Some(ButtonOption::Back)
        } else if v == -96 {
            Some(ButtonOption::Forward)
        } else if v == -95 {
            Some(ButtonOption::Up)
        } else if v == -94 {
            Some(ButtonOption::Close)
        } else if v == -93 {
            Some(ButtonOption::Sessions)
        } else if v == -92 {
            Some(ButtonOption::Pages)
        } else {
            None
        }
    }
}

/// One button of an inline keyboard: a callback button carrying a wire
/// token, or a plain link leading outside.
#[derive(Debug, Clone)]
pub enum Button {
    Callback { label: String, token: String },
    Link { label: String, href: String },
}

/// The value of a button, for contracts.
pub enum ButtonView {
    Callback { label: Seq<char>, token: Seq<char> },
    Link { label: Seq<char>, href: Seq<char> },
}

impl View for Button {
    type V = ButtonView;

    open spec fn view(&self) -> ButtonView {
        match self {
            Button::Callback { label, token } => ButtonView::Callback {
                label: label@,
                token: token@,
            },
            Button::Link { label, href } => ButtonView::Link { label: label@, href: href@ },
        }
    }
}

/// A keyboard: rows of buttons.
pub type Keyboard = Vec<Vec<Button>>;

/// A callback button with this label, on this menu, with this payload.
pub open spec fn cbv(label: Seq<char>, menu: MenuCode, payload: Seq<char>) -> ButtonView {
    ButtonView::Callback { label, token: token_spec(menu, payload) }
}

/// The payload of a control button.
pub open spec fn opt_payload(option: ButtonOption) -> Seq<char> {
    dec_int(option.code_spec())
}

/// Builds a callback button.
fn cb_button(label: &str, menu: MenuCode, payload: &str) -> (r: Button)
    ensures
        r@ == cbv(label@, menu, payload@),
{
    Button::Callback { label: String::from_str(label), token: encode_token(menu, payload) }
}

/// Builds a control button.
fn control_button(label: &str, menu: MenuCode, option: ButtonOption) -> (r: Button)
    ensures
        r@ == cbv(label@, menu, opt_payload(option)),
{
    Button::Callback {
        label: String::from_str(label),
        token: encode_token(menu, i32_to_string(option.code()).as_str()),
    }
}

/// The day-picking keyboard: today, the two days after it, and a close
/// button, every date riding in its own token.
pub open spec fn kb_is_day(kb: &Keyboard, today: Date, tomorrow: Date, after: Date) -> bool {
    &&& kb@.len() == 3
    &&& kb@[0]@.len() == 1
    &&& kb@[1]@.len() == 2
    &&& kb@[2]@.len() == 1
    &&& kb@[0]@[0]@ == cbv("Сегодня"@, MenuCode::ChooseDay, date_token(today))
    &&& kb@[1]@[0]@ == cbv(
        ru_day_label(tomorrow.year as int, tomorrow.month as int, tomorrow.day as int),
        MenuCode::ChooseDay,
        date_token(tomorrow),
    )
    &&& kb@[1]@[1]@ == cbv(
        ru_day_label(after.year as int, after.month as int, after.day as int),
        MenuCode::ChooseDay,
        date_token(after),
    )
    &&& kb@[2]@[0]@ == cbv("❌ Закрыть"@, MenuCode::ChooseDay, opt_payload(ButtonOption::Close))
}

pub fn keyboard_day(today: &Date, tomorrow: &Date, after: &Date) -> (r: Keyboard)
    requires
        valid_date(*today),
        valid_date(*tomorrow),
        valid_date(*after),
    ensures
        kb_is_day(&r, *today, *tomorrow, *after),
{
    let button_1 = cb_button("Сегодня", MenuCode::ChooseDay, date_to_string(today).as_str());
    let button_2 = Button::Callback {
        label: format_ru_day(tomorrow),
        token: encode_token(MenuCode::ChooseDay, date_to_string(tomorrow).as_str()),
    };
    let button_3 = Button::Callback {
        label: format_ru_day(after),
        token: encode_token(MenuCode::ChooseDay, date_to_string(after).as_str()),
    };
    let button_4 = control_button("❌ Закрыть", MenuCode::ChooseDay, ButtonOption::Close);
    let mut row_1: Vec<Button> = Vec::new();
    row_1.push(button_1);
    let mut row_2: Vec<Button> = Vec::new();
    row_2.push(button_2);
    row_2.push(button_3);
    let mut row_3: Vec<Button> = Vec::new();
    row_3.push(button_4);
    let mut kb: Keyboard = Vec::new();
    kb.push(row_1);
    kb.push(row_2);
    kb.push(row_3);
    kb
}

/// The start menu: browse everything, browse by cinema, close, or go back
/// up to the day choice.
pub open spec fn kb_is_main(kb: &Keyboard) -> bool {
    &&& kb@.len() == 2
    &&& kb@[0]@.len() == 2
    &&& kb@[1]@.len() == 2
    &&& kb@[0]@[0]@ == cbv("Все фильмы"@, MenuCode::MainMenu, opt_payload(ButtonOption::Movies))
    &&& kb@[0]@[1]@ == cbv(
        "По кинотеатру"@,
        MenuCode::MainMenu,
        opt_payload(ButtonOption::Cinemas),
    )
    &&& kb@[1]@[0]@ == cbv("❌ Закрыть"@, MenuCode::MainMenu, opt_payload(ButtonOption::Close))
    &&& kb@[1]@[1]@ == cbv("️Наверх ⬆"@, MenuCode::MainMenu, opt_payload(ButtonOption::Up))
}

pub fn keyboard_main() -> (r: Keyboard)
    ensures
        kb_is_main(&r),
{
    let button_1 = control_button("Все фильмы", MenuCode::MainMenu, ButtonOption::Movies);
    let button_2 = control_button("По кинотеатру", MenuCode::MainMenu, ButtonOption::Cinemas);
    let button_3 = control_button("❌ Закрыть", MenuCode::MainMenu, ButtonOption::Close);
    let button_4 = control_button("️Наверх ⬆", MenuCode::MainMenu, ButtonOption::Up);
    let mut row_1: Vec<Button> = Vec::new();
    row_1.push(button_1);
    row_1.push(button_2);
    let mut row_2: Vec<Button> = Vec::new();
    row_2.push(button_3);
    row_2.push(button_4);
    let mut kb: Keyboard = Vec::new();
    kb.push(row_1);
    kb.push(row_2);
    kb
}

/// The buttons of the cinema-choice grid, one per cinema, its id as
/// payload.
pub open spec fn cinema_buttons(cs: Seq<Cinema>) -> Seq<ButtonView> {
    Seq::new(cs.len(), |j: int| cbv(cs[j].name@, MenuCode::Cinemas, dec_int(cs[j].id as int)))
}

/// Rows packing a run of buttons two per row, the last row holding one when
/// the run is odd.
pub open spec fn rows_pair_up(rows: Seq<Vec<Button>>, all: Seq<ButtonView>) -> bool {
    &&& rows.len() == (all.len() + 1) / 2
    &&& forall|i: int|
        0 <= i < rows.len() ==> #[trigger] rows[i]@.len() == if 2 * i + 1 < all.len() {
            2int
        } else {
            1int
        }
    &&& forall|j: int| 0 <= j < all.len() ==> #[trigger] rows[j / 2]@[j % 2]@ == all[j]
}

/// The cinema-choice keyboard: the cinemas two per row, then a close/up
/// control row.
pub open spec fn kb_is_cinemas(kb: &Keyboard, cs: Seq<Cinema>) -> bool {
    let btns = cinema_buttons(cs);
    &&& kb@.len() == (btns.len() + 1) / 2 + 1
    &&& rows_pair_up(kb@.take(kb@.len() - 1), btns)
    &&& kb@[kb@.len() - 1]@.len() == 2
    &&& kb@[kb@.len() - 1]@[0]@ == cbv(
        "❌ Закрыть"@,
        MenuCode::Cinemas,
        opt_payload(ButtonOption::Close),
    )
    &&& kb@[kb@.len() - 1]@[1]@ == cbv("️Наверх ⬆"@, MenuCode::Cinemas, opt_payload(ButtonOption::Up))
}

fn cinema_button(c: &Cinema) -> (r: Button)
    ensures
        r@ == cbv(c.name@, MenuCode::Cinemas, dec_int(c.id as int)),
{
    Button::Callback {
        label: c.name.clone(),
        token: encode_token(MenuCode::Cinemas, i32_to_string(c.id).as_str()),
    }
}

pub fn keyboard_cinemas(cinemas: Vec<Cinema>) -> (r: Keyboard)
    ensures
        kb_is_cinemas(&r, cinemas@),
{
    let ghost btns = cinema_buttons(cinemas@);
    let mut kb: Keyboard = Vec::new();
    let mut i: usize = 0;
    while i < cinemas.len()
        invariant
            0 <= i <= cinemas@.len(),
            i % 2 == 0 || i == cinemas@.len(),
            btns == cinema_buttons(cinemas@),
            btns.len() == cinemas@.len(),
            kb@.len() == (i + 1) / 2,
            forall|p: int|
                0 <= p < kb@.len() ==> #[trigger] kb@[p]@.len() == if 2 * p + 1 < btns.len() {
                    2int
                } else {
                    1int
                },
            forall|j: int| 0 <= j < i ==> #[trigger] kb@[j / 2]@[j % 2]@ == btns[j],
        decreases cinemas@.len() - i,
    {
        let mut row: Vec<Button> = Vec::new();
        row.push(cinema_button(&cinemas[i]));
        if i + 1 < cinemas.len() {
            row.push(cinema_button(&cinemas[i + 1]));
            kb.push(row);
            i += 2;
        } else {
            kb.push(row);
            i += 1;
        }
    }
    let button_1 = control_button("❌ Закрыть", MenuCode::Cinemas, ButtonOption::Close);
    let button_2 = control_button("️Наверх ⬆", MenuCode::Cinemas, ButtonOption::Up);
    let mut row: Vec<Button> = Vec::new();
    row.push(button_1);
    row.push(button_2);
    let ghost pre = kb@;
    kb.push(row);
    proof {
        assert(kb@.take(kb@.len() - 1) =~= pre);
    }
    kb
}

/// The page label between the paging arrows: `"{page} из {pages}"`.
pub open spec fn pages_label(page: int, total: int) -> Seq<char> {
    dec_int(page) + " из "@ + dec_int(total)
}

/// The movie-list keyboard: one button per movie on the page, then the
/// control row with back and forward arrows, the page label and the up
/// button.
pub open spec fn kb_is_movielist(
    kb: &Keyboard,
    movies: Seq<MovieShort>,
    menu: MenuCode,
    page: int,
    total: int,
) -> bool {
    &&& kb@.len() == movies.len() + 1
    &&& forall|i: int| 0 <= i < movies.len() ==> #[trigger] kb@[i]@.len() == 1
    &&& forall|i: int|
        0 <= i < movies.len() ==> #[trigger] kb@[i]@[0]@ == cbv(
            movies[i].title@,
            menu,
            dec_int(movies[i].id as int),
        )
    &&& kb@[movies.len() as int]@.len() == 4
    &&& kb@[movies.len() as int]@[0]@ == cbv("⬅️"@, menu, opt_payload(ButtonOption::Back))
    &&& kb@[movies.len() as int]@[1]@ == cbv("➡️"@, menu, opt_payload(ButtonOption::Forward))
    &&& kb@[movies.len() as int]@[2]@ == cbv(
        pages_label(page, total),
        menu,
        opt_payload(ButtonOption::Pages),
    )
    &&& kb@[movies.len() as int]@[3]@ == cbv("️⬆"@, menu, opt_payload(ButtonOption::Up))
}

pub fn keyboard_movielist(movies: Vec<MovieShort>, menu_code: MenuCode, page: i64, total_pages: i64) -> (r:
    Keyboard)
    ensures
        kb_is_movielist(&r, movies@, menu_code, page as int, total_pages as int),
{
    let mut kb: Keyboard = Vec::new();
    let mut i: usize = 0;
    while i < movies.len()
        invariant
            0 <= i <= movies@.len(),
            kb@.len() == i,
            forall|p: int| 0 <= p < i ==> #[trigger] kb@[p]@.len() == 1,
            forall|p: int|
                0 <= p < i ==> #[trigger] kb@[p]@[0]@ == cbv(
                    movies@[p].title@,
                    menu_code,
                    dec_int(movies@[p].id as int),
                ),
        decreases movies@.len() - i,
    {
        let m = &movies[i];
        let b = Button::Callback {
            label: m.title.clone(),
            token: encode_token(menu_code, i32_to_string(m.id).as_str()),
        };
        let mut row: Vec<Button> = Vec::new();
        row.push(b);
        kb.push(row);
        i += 1;
    }
    let button_1 = control_button("⬅️", menu_code, ButtonOption::Back);
    let button_2 = control_button("➡️", menu_code, ButtonOption::Forward);
    let mut label = i64_to_string(page);
    label.append(" из ");
    label.append(i64_to_string(total_pages).as_str());
    proof {
        assert(label@ =~= pages_label(page as int, total_pages as int));
    }
    let button_3 = Button::Callback {
        label,
        token: encode_token(menu_code, i32_to_string(ButtonOption::Pages.code()).as_str()),
    };
    let button_4 = control_button("️⬆", menu_code, ButtonOption::Up);
    let mut row: Vec<Button> = Vec::new();
    row.push(button_1);
    row.push(button_2);
    row.push(button_3);
    row.push(button_4);
    kb.push(row);
    kb
}

/// The keyboard under an empty listing: an acknowledging close button and
/// the way back up.
pub open spec fn kb_is_ok_or_up(kb: &Keyboard, menu: MenuCode) -> bool {
    &&& kb@.len() == 1
    &&& kb@[0]@.len() == 2
    &&& kb@[0]@[0]@ == cbv("😔 Ок"@, menu, opt_payload(ButtonOption::Close))
    &&& kb@[0]@[1]@ == cbv("️Наверх ⬆"@, menu, opt_payload(ButtonOption::Up))
}

pub fn keyboard_ok_or_up(menu_code: MenuCode) -> (r: Keyboard)
    ensures
        kb_is_ok_or_up(&r, menu_code),
{
    let button_1 = control_button("😔 Ок", menu_code, ButtonOption::Close);
    let button_2 = control_button("️Наверх ⬆", menu_code, ButtonOption::Up);
    let mut row: Vec<Button> = Vec::new();
    row.push(button_1);
    row.push(button_2);
    let mut kb: Keyboard = Vec::new();
    kb.push(row);
    kb
}

/// A link button.
pub open spec fn lnk(label: Seq<char>, href: Seq<char>) -> ButtonView {
    ButtonView::Link { label, href }
}

/// A copy of a button with the same label and the same token or address.
fn dup_button(b: &Button) -> (r: Button)
    ensures
        r@ == b@,
{
    match b {
        Button::Callback { label, token } => Button::Callback {
            label: label.clone(),
            token: token.clone(),
        },
        Button::Link { label, href } => Button::Link { label: label.clone(), href: href.clone() },
    }
}

/// The buttons under a pinned movie: close, sessions, and a link for each
/// address the movie detail has.
pub open spec fn movie_links_buttons(
    mk: Option<Seq<char>>,
    kp: Option<Seq<char>>,
    menu: MenuCode,
) -> Seq<ButtonView> {
    seq![
        cbv("🌝 Ок"@, menu, opt_payload(ButtonOption::Close)),
        cbv("🗓"@, menu, opt_payload(ButtonOption::Sessions)),
    ] + (match mk {
        Some(h) => seq![lnk("Москино"@, h)],
        None => Seq::<ButtonView>::empty(),
    }) + (match kp {
        Some(h) => seq![lnk("Кинопоиск"@, h)],
        None => Seq::<ButtonView>::empty(),
    })
}

/// The pinned-movie keyboard: its buttons packed two per row.
pub open spec fn kb_is_movie_links(
    kb: &Keyboard,
    mk: Option<Seq<char>>,
    kp: Option<Seq<char>>,
    menu: MenuCode,
) -> bool {
    rows_pair_up(kb@, movie_links_buttons(mk, kp, menu))
}

pub open spec fn opt_str_view(o: Option<&str>) -> Option<Seq<char>> {
    match o {
        Some(s) => Some(s@),
        None => None,
    }
}

pub fn keybord_movie_links(href_mk: Option<&str>, href_kp: Option<&str>, menu_code: MenuCode) -> (r:
    Keyboard)
    ensures
        kb_is_movie_links(&r, opt_str_view(href_mk), opt_str_view(href_kp), menu_code),
{
    let ghost all = movie_links_buttons(opt_str_view(href_mk), opt_str_view(href_kp), menu_code);
    let mut buttons: Vec<Button> = Vec::new();
    buttons.push(control_button("🌝 Ок", menu_code, ButtonOption::Close));
    buttons.push(control_button("🗓", menu_code, ButtonOption::Sessions));
    match href_mk {
        Some(mk) => {
            buttons.push(
                Button::Link { label: String::from_str("Москино"), href: String::from_str(mk) },
            );
        },
        None => {},
    }
    match href_kp {
        Some(kp) => {
            buttons.push(
                Button::Link { label: String::from_str("Кинопоиск"), href: String::from_str(kp) },
            );
        },
        None => {},
    }
    proof {
        assert(forall|j: int| 0 <= j < all.len() ==> buttons@[j]@ == #[trigger] all[j]);
        assert(buttons@.len() == all.len());
    }
    let mut kb: Keyboard = Vec::new();
    let mut i: usize = 0;
    while i < buttons.len()
        invariant
            0 <= i <= buttons@.len(),
            i % 2 == 0 || i == buttons@.len(),
            buttons@.len() == all.len(),
            forall|j: int| 0 <= j < all.len() ==> buttons@[j]@ == #[trigger] all[j],
            kb@.len() == (i + 1) / 2,
            forall|p: int|
                0 <= p < kb@.len() ==> #[trigger] kb@[p]@.len() == if 2 * p + 1 < all.len() {
                    2int
                } else {
                    1int
                },
            forall|j: int| 0 <= j < i ==> #[trigger] kb@[j / 2]@[j % 2]@ == all[j],
        decreases buttons@.len() - i,
    {
        let mut row: Vec<Button> = Vec::new();
        row.push(dup_button(&buttons[i]));
        if i + 1 < buttons.len() {
            row.push(dup_button(&buttons[i + 1]));
            kb.push(row);
            i += 2;
        } else {
            kb.push(row);
            i += 1;
        }
    }
    kb
}

} // verus!
