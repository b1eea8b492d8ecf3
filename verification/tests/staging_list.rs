use cursive::views::SelectView;
use food_staging::callbacks::{add_button_cb, delete_item, DeletePrompt, RowRejection};
use food_staging::item::Item;
use food_staging::staging::{append, clear, len, new_list, remove_at, selected_id, snapshot};

fn draft(n: usize) -> Item {
    Item::new(&format!("item{}", n), &format!("{}.5", n), &format!("{}", n), "2024/02/05")
}

fn filled(count: usize) -> SelectView<Item> {
    let mut list = new_list();
    for n in 0..count {
        append(&mut list, draft(n));
    }
    list
}

#[test]
fn new_list_is_empty() {
    let list = new_list();
    assert_eq!(len(&list), 0);
    assert_eq!(snapshot(&list), Vec::<Item>::new());
    assert_eq!(selected_id(&list), None);
}

#[test]
fn appended_drafts_come_back_in_insertion_order() {
    let list = filled(5);
    assert_eq!(len(&list), 5);
    assert_eq!(snapshot(&list), (0..5).map(draft).collect::<Vec<_>>());
}

#[test]
fn append_shows_the_display_text() {
    let mut list = new_list();
    append(&mut list, Item::new("Milk", "1.5", "2", "2024/02/05"));
    let (label, record) = list.get_item(0).unwrap();
    assert_eq!(label, "Milk | 1.5 | 2 | 2024/02/05");
    assert_eq!(record, &Item::new("Milk", "1.5", "2", "2024/02/05"));
}

#[test]
fn duplicates_are_kept() {
    let mut list = new_list();
    append(&mut list, draft(1));
    append(&mut list, draft(1));
    assert_eq!(snapshot(&list), vec![draft(1), draft(1)]);
}

#[test]
fn removal_keeps_the_others_in_order() {
    for index in 0..5 {
        let mut list = filled(5);
        remove_at(&mut list, index);
        let expected: Vec<Item> = (0..5).filter(|n| *n != index).map(draft).collect();
        assert_eq!(len(&list), 4);
        assert_eq!(snapshot(&list), expected);
    }
}

#[test]
fn removal_out_of_range_changes_nothing() {
    let mut list = filled(3);
    remove_at(&mut list, 3);
    remove_at(&mut list, usize::MAX);
    assert_eq!(snapshot(&list), vec![draft(0), draft(1), draft(2)]);
    let mut empty = new_list();
    remove_at(&mut empty, 0);
    assert_eq!(len(&empty), 0);
}

#[test]
fn snapshot_is_independent_of_later_changes() {
    let mut list = filled(2);
    let before = snapshot(&list);
    append(&mut list, draft(9));
    remove_at(&mut list, 0);
    assert_eq!(before, vec![draft(0), draft(1)]);
    assert_eq!(snapshot(&list), vec![draft(1), draft(9)]);
}

#[test]
fn clear_empties_the_list() {
    let mut list = filled(4);
    clear(&mut list);
    assert_eq!(len(&list), 0);
    assert_eq!(snapshot(&list), Vec::<Item>::new());
    clear(&mut list);
    assert_eq!(len(&list), 0);
}

#[test]
fn selection_exists_when_the_list_has_rows() {
    let list = filled(3);
    assert_eq!(selected_id(&list), Some(0));
    let mut moved = filled(3);
    let _ = moved.set_selection(2);
    assert_eq!(selected_id(&moved), Some(2));
}

#[test]
fn delete_on_an_empty_list_has_nothing_to_remove() {
    let list = new_list();
    let prompt = delete_item(&list);
    assert_eq!(prompt, DeletePrompt::NothingToRemove);
    assert_eq!(prompt.message(), "Nothing to remove!");
}

#[test]
fn delete_asks_before_removing_the_selected_row() {
    let mut list = filled(3);
    let _ = list.set_selection(1);
    let prompt = delete_item(&list);
    assert_eq!(prompt, DeletePrompt::Confirm(1));
    assert_eq!(prompt.message(), "Remove item from list?");
    assert_eq!(len(&list), 3);
    if let DeletePrompt::Confirm(index) = prompt {
        remove_at(&mut list, index);
    }
    assert_eq!(snapshot(&list), vec![draft(0), draft(2)]);
}

#[test]
fn delete_prompt_follows_the_selection() {
    assert_eq!(DeletePrompt::for_selection(None), DeletePrompt::NothingToRemove);
    assert_eq!(DeletePrompt::for_selection(Some(7)), DeletePrompt::Confirm(7));
}

#[test]
fn short_form_joins_three_texts() {
    let row = add_button_cb(
        Some("Milk".to_string()),
        Some("1.5".to_string()),
        Some("2024/02/05".to_string()),
    );
    assert_eq!(row, Ok("Milk | 1.5 | 2024/02/05".to_string()));
}

#[test]
fn short_form_wants_every_input_filled() {
    let some = |text: &str| Some(text.to_string());
    assert_eq!(add_button_cb(None, some("1"), some("2024/02/05")), Err(RowRejection::Unfilled));
    assert_eq!(add_button_cb(some("a"), some(""), some("2024/02/05")), Err(RowRejection::Unfilled));
    assert_eq!(add_button_cb(some("a"), some("1"), None), Err(RowRejection::Unfilled));
    assert_eq!(add_button_cb(some(""), some(" "), some("x")), Err(RowRejection::Unfilled));
}

#[test]
fn short_form_turns_down_blank_inputs_and_bad_dates() {
    let some = |text: &str| Some(text.to_string());
    assert_eq!(add_button_cb(some("  "), some("1"), some("2024/02/05")), Err(RowRejection::Blank));
    assert_eq!(add_button_cb(some("a"), some(" "), some("2024/02/30")), Err(RowRejection::Blank));
    assert_eq!(add_button_cb(some("a"), some("1"), some("2024/02/30")), Err(RowRejection::DateFormat));
    assert_eq!(add_button_cb(some("a"), some("1"), some("2024/2/5")), Err(RowRejection::DateFormat));
    assert_eq!(add_button_cb(some("a"), some("one"), some("2024/02/05")), Ok("a | one | 2024/02/05".to_string()));
}

#[test]
fn short_form_messages() {
    assert_eq!(RowRejection::Unfilled.message(), "All input fields must be filled");
    assert_eq!(RowRejection::Blank.message(), "No bogus please");
    assert_eq!(
        RowRejection::DateFormat.message(),
        "Date provided is not the correct format. Use YYYY/MM/DD"
    );
}
