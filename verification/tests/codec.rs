use moskino::keyboard::{ButtonOption, MenuCode};
use moskino::tools::{callback_parse, encode_token, TokenError};

#[test]
fn encode_writes_menu_delimiter_payload() {
    assert_eq!(encode_token(MenuCode::ChooseDay, "2024.01.05"), "0:2024.01.05");
    assert_eq!(encode_token(MenuCode::MainMenu, "-99"), "1:-99");
    assert_eq!(encode_token(MenuCode::PinnedMovie, ""), "5:");
}

#[test]
fn decode_round_trips_every_menu() {
    let menus = [
        MenuCode::ChooseDay,
        MenuCode::MainMenu,
        MenuCode::Cinemas,
        MenuCode::MovielistFromCinema,
        MenuCode::MovielistDefault,
        MenuCode::PinnedMovie,
    ];
    for menu in menus {
        let token = encode_token(menu, "payload-42");
        let (decoded, payload) = callback_parse(&token).unwrap();
        assert_eq!(decoded, menu);
        assert_eq!(payload, "payload-42");
    }
}

#[test]
fn decode_without_delimiter_is_malformed() {
    assert_eq!(callback_parse("42").unwrap_err(), TokenError::MalformedToken);
    assert_eq!(callback_parse("").unwrap_err(), TokenError::MalformedToken);
}

#[test]
fn decode_with_non_numeric_prefix_is_malformed() {
    assert_eq!(callback_parse("abc:1").unwrap_err(), TokenError::MalformedToken);
    assert_eq!(callback_parse(":1").unwrap_err(), TokenError::MalformedToken);
}

#[test]
fn decode_with_unknown_menu_number_fails() {
    assert_eq!(callback_parse("9:1").unwrap_err(), TokenError::UnknownMenuCode);
    assert_eq!(callback_parse("-1:1").unwrap_err(), TokenError::UnknownMenuCode);
}

#[test]
fn payload_stops_at_a_second_delimiter() {
    let (menu, payload) = callback_parse("1:ab:cd").unwrap();
    assert_eq!(menu, MenuCode::MainMenu);
    assert_eq!(payload, "ab");
}

#[test]
fn prefix_parsing_matches_the_integer_grammar_exactly() {
    // The largest number that still parses names no menu; one past it no
    // longer parses as a number at all.
    assert_eq!(callback_parse("2147483647:x").unwrap_err(), TokenError::UnknownMenuCode);
    assert_eq!(callback_parse("2147483648:x").unwrap_err(), TokenError::MalformedToken);
    // A leading plus or a signed zero parse the way the standard integer
    // grammar reads them.
    assert_eq!(callback_parse("+1:x").unwrap().0, MenuCode::MainMenu);
    assert_eq!(callback_parse("-0:x").unwrap().0, MenuCode::ChooseDay);
    assert_eq!(callback_parse("+:x").unwrap_err(), TokenError::MalformedToken);
    assert_eq!(callback_parse("1.0:x").unwrap_err(), TokenError::MalformedToken);
}

#[test]
fn scenario_stale_menu_is_a_mismatch() {
    // A day-one button token pressed while the conversation expects the
    // cinema menu: decoding succeeds, the compliance check refuses it.
    let (menu, payload) = callback_parse("1:2024.01.05").unwrap();
    assert_eq!(menu, MenuCode::MainMenu);
    assert_eq!(payload, "2024.01.05");
    assert_eq!(menu.check_complience(MenuCode::Cinemas).unwrap_err(), TokenError::MenuMismatch);
}

#[test]
fn matching_menu_passes_the_compliance_check() {
    assert!(MenuCode::Cinemas.check_complience(MenuCode::Cinemas).is_ok());
}

#[test]
fn menu_codes_and_control_codes_round_trip() {
    for v in 0..6 {
        let menu = MenuCode::from_code(v).unwrap();
        assert_eq!(menu.code(), v);
    }
    assert!(MenuCode::from_code(6).is_none());
    let controls = [
        ButtonOption::Movies,
        ButtonOption::Cinemas,
        ButtonOption::Back,
        ButtonOption::Forward,
        ButtonOption::Up,
        ButtonOption::Close,
        ButtonOption::Sessions,
        ButtonOption::Pages,
    ];
    for opt in controls {
        assert_eq!(ButtonOption::from_code(opt.code()), Some(opt));
    }
    // These two never ride in a token and map back to nothing.
    assert_eq!(ButtonOption::Day.code(), -100);
    assert!(ButtonOption::from_code(-100).is_none());
    assert_eq!(ButtonOption::NotSetted.code(), -91);
    assert!(ButtonOption::from_code(-91).is_none());
}

#[test]
fn control_codes_stay_out_of_the_item_id_space() {
    let controls = [
        ButtonOption::Day,
        ButtonOption::Movies,
        ButtonOption::Cinemas,
        ButtonOption::Back,
        ButtonOption::Forward,
        ButtonOption::Up,
        ButtonOption::Close,
        ButtonOption::Sessions,
        ButtonOption::Pages,
        ButtonOption::NotSetted,
    ];
    for opt in controls {
        assert!(opt.code() < 0);
    }
}
