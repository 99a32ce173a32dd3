use moskino::callbackdata::{CallbackData, CallbackDataCinema, CallbackDataDefault,
    CallbackPinnedMsg};
use moskino::dates::Date;
use moskino::keyboard::ButtonOption;
use moskino::store::Cinema;

fn date() -> Date {
    Date { year: 2024, month: 1, day: 5 }
}

fn fresh(per_page: i64) -> CallbackDataDefault {
    CallbackDataDefault::new(date(), 10, None, per_page)
}

#[test]
fn new_default_starts_at_page_one_with_zero_total() {
    let data = fresh(10);
    assert_eq!(data.db_current_page, 1);
    assert_eq!(data.db_total_pages, 0);
    assert_eq!(data.db_items_per_page, 10);
    assert!(data.pinned_msg.is_none());
}

#[test]
fn new_cinema_keeps_the_cinema() {
    let data = CallbackDataCinema::new(date(), Cinema::new(3, "Сатурн".to_string()), 7, None, 5);
    assert_eq!(data.cinema.id, 3);
    assert_eq!(data.cinema.name, "Сатурн");
    assert_eq!(data.db_current_page, 1);
}

#[test]
fn total_pages_is_ceiling_of_count_over_page_size() {
    let mut data = fresh(10);
    data.set_total_pages(0);
    assert_eq!(data.db_total_pages, 0);
    data.set_total_pages(1);
    assert_eq!(data.db_total_pages, 1);
    data.set_total_pages(10);
    assert_eq!(data.db_total_pages, 1);
    data.set_total_pages(11);
    assert_eq!(data.db_total_pages, 2);
    data.set_total_pages(25);
    assert_eq!(data.db_total_pages, 3);
}

#[test]
fn total_pages_change_resets_current_page() {
    let mut data = fresh(10);
    data.set_total_pages(25);
    assert_eq!(data.db_total_pages, 3);
    assert!(data.set_current_page(ButtonOption::Forward));
    assert!(data.set_current_page(ButtonOption::Forward));
    assert_eq!(data.db_current_page, 3);
    // The same count again: nothing changed, the page stays.
    data.set_total_pages(25);
    assert_eq!(data.db_current_page, 3);
}

#[test]
fn back_on_page_one_is_inert() {
    let mut data = fresh(10);
    data.set_total_pages(25);
    assert!(!data.set_current_page(ButtonOption::Back));
    assert_eq!(data.db_current_page, 1);
}

#[test]
fn forward_on_last_page_is_inert() {
    let mut data = fresh(10);
    data.set_total_pages(10);
    assert_eq!(data.db_total_pages, 1);
    assert!(!data.set_current_page(ButtonOption::Forward));
    assert_eq!(data.db_current_page, 1);
}

#[test]
fn steps_move_by_exactly_one() {
    let mut data = fresh(10);
    data.set_total_pages(25);
    assert!(data.set_current_page(ButtonOption::Forward));
    assert_eq!(data.db_current_page, 2);
    assert!(data.set_current_page(ButtonOption::Back));
    assert_eq!(data.db_current_page, 1);
}

#[test]
fn scenario_three_pages_forward_to_the_edge() {
    // itemCount 25 at page size 10 gives three pages; two presses walk to
    // the last page and the third is a silent no-op.
    let mut data = fresh(10);
    data.set_total_pages(25);
    assert_eq!(data.db_total_pages, 3);
    assert_eq!(data.db_current_page, 1);
    assert!(data.set_current_page(ButtonOption::Forward));
    assert_eq!(data.db_current_page, 2);
    assert!(data.set_current_page(ButtonOption::Forward));
    assert_eq!(data.db_current_page, 3);
    assert!(!data.set_current_page(ButtonOption::Forward));
    assert_eq!(data.db_current_page, 3);
}

#[test]
fn scenario_shrinking_count_resets_instead_of_clamping() {
    // The list shrinks from 25 items to 5 between renders while the cursor
    // sits on page three: reconciling returns to page one.
    let mut data = fresh(10);
    data.set_total_pages(25);
    assert!(data.set_current_page(ButtonOption::Forward));
    assert!(data.set_current_page(ButtonOption::Forward));
    assert_eq!(data.db_current_page, 3);
    data.set_total_pages(5);
    assert_eq!(data.db_total_pages, 1);
    assert_eq!(data.db_current_page, 1);
}

#[test]
fn pinned_msg_new_keeps_both_ids() {
    let p = CallbackPinnedMsg::new(44, 9);
    assert_eq!(p.id_msg, 44);
    assert_eq!(p.db_id_movie, 9);
}

#[test]
fn generic_data_update_keeps_other_fields() {
    let mut data: CallbackData<()> = fresh(7);
    data.set_total_pages(14);
    assert_eq!(data.db_total_pages, 2);
    assert_eq!(data.db_items_per_page, 7);
    assert_eq!(data.id_msg, 10);
    assert_eq!(data.date, Date { year: 2024, month: 1, day: 5 });
}
