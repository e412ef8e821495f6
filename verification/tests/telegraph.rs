use chinese_telegraph::{to_telegraph, to_telegraph_string, Table};

#[test]
fn it_can_look_up_a_tw_character() {
    let result = to_telegraph("這", Table::TW);
    assert_eq!(result, Some(6638));
}

#[test]
fn it_can_look_up_a_cn_character() {
    let result = to_telegraph("这", Table::CN);
    assert_eq!(result, Some(6638));
}

#[test]
fn it_can_look_up_a_character_in_both_tables() {
    let result = to_telegraph("一", Table::Both);
    assert_eq!(result, Some(1));
}

#[test]
fn it_returns_none_for_unknown_characters() {
    let result = to_telegraph("🦀", Table::Both);
    assert_eq!(result, None);
}

#[test]
fn it_returns_none_for_more_than_one_character() {
    let result = to_telegraph("這是", Table::Both);
    assert_eq!(result, None);
}

#[test]
fn it_formats_the_number_with_leading_zeros() {
    let result = to_telegraph_string("一", Table::Both);
    assert_eq!(result, Some("0001".to_string()));
}

#[test]
fn traditional_character_resolves_under_each_selector_that_knows_it() {
    assert_eq!(to_telegraph("國", Table::TW), Some(948));
    assert_eq!(to_telegraph("國", Table::Both), Some(948));
    assert_eq!(to_telegraph("國", Table::CN), None);
}

#[test]
fn simplified_only_character_falls_through_under_both() {
    assert_eq!(to_telegraph("国", Table::CN), Some(948));
    assert_eq!(to_telegraph("国", Table::Both), Some(948));
    assert_eq!(to_telegraph("国", Table::TW), None);
}

#[test]
fn character_in_both_tables_keeps_one_code() {
    assert_eq!(to_telegraph("中", Table::TW), Some(22));
    assert_eq!(to_telegraph("中", Table::CN), Some(22));
    assert_eq!(to_telegraph("中", Table::Both), Some(22));
}

#[test]
fn empty_string_finds_nothing() {
    assert_eq!(to_telegraph("", Table::Both), None);
    assert_eq!(to_telegraph("", Table::TW), None);
    assert_eq!(to_telegraph("", Table::CN), None);
    assert_eq!(to_telegraph_string("", Table::Both), None);
}

#[test]
fn multi_character_string_finds_nothing_under_any_selector() {
    assert_eq!(to_telegraph("一一", Table::Both), None);
    assert_eq!(to_telegraph("這是", Table::TW), None);
    assert_eq!(to_telegraph("这是", Table::CN), None);
    assert_eq!(to_telegraph_string("這是", Table::Both), None);
}

#[test]
fn supplementary_plane_character_is_unknown() {
    assert_eq!(to_telegraph("𠜎", Table::Both), None);
}

#[test]
fn ascii_character_is_unknown() {
    assert_eq!(to_telegraph("A", Table::Both), None);
    assert_eq!(to_telegraph("A", Table::TW), None);
    assert_eq!(to_telegraph("A", Table::CN), None);
}

#[test]
fn degenerate_zero_code_is_looked_up_and_padded() {
    assert_eq!(to_telegraph("〇", Table::Both), Some(0));
    assert_eq!(to_telegraph_string("〇", Table::TW), Some("0000".to_string()));
}

#[test]
fn four_digit_code_is_rendered_without_padding() {
    assert_eq!(to_telegraph_string("這", Table::TW), Some("6638".to_string()));
    assert_eq!(to_telegraph_string("这", Table::CN), Some("6638".to_string()));
}

#[test]
fn three_digit_code_gets_one_leading_zero() {
    assert_eq!(to_telegraph_string("國", Table::Both), Some("0948".to_string()));
}

#[test]
fn formatter_returns_none_where_lookup_finds_nothing() {
    assert_eq!(to_telegraph_string("🦀", Table::Both), None);
    assert_eq!(to_telegraph_string("國", Table::CN), None);
}

#[test]
fn simplified_form_of_lose_keeps_its_code() {
    assert_eq!(to_telegraph("丢", Table::Both), Some(16));
    assert_eq!(to_telegraph("丢", Table::CN), Some(16));
    assert_eq!(to_telegraph("丟", Table::TW), Some(16));
    assert_eq!(to_telegraph("丟", Table::CN), None);
}

#[test]
fn repeated_calls_return_identical_results() {
    let first = to_telegraph("這", Table::Both);
    let second = to_telegraph("這", Table::Both);
    assert_eq!(first, second);
    let first_s = to_telegraph_string("一", Table::Both);
    let second_s = to_telegraph_string("一", Table::Both);
    assert_eq!(first_s, second_s);
}
