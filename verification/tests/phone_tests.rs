use aviate::nasr::common::PhoneTagger;
use aviate::nasr::phone::{find_phone_numbers, tag_phone_ranges, tag_phones};

#[test]
fn tags_dashed_number() {
    let tagger = PhoneTagger::new();
    assert_eq!(
        tagger.process_text("Call 555-123-4567 now"),
        "Call [color=#A0C0FF]555-123-4567[/color] now"
    );
}

#[test]
fn tags_number_with_dialling_link() {
    let tagger = PhoneTagger::with_tel_links(true);
    assert_eq!(
        tagger.process_text("555-123-4567"),
        "[url=\"tel:555-123-4567\"][color=#A0C0FF]555-123-4567[/color][/url]"
    );
}

#[test]
fn finds_ranges_in_order() {
    let ranges = find_phone_numbers("Call 555-123-4567 or 1-800-555-1212");
    assert_eq!(ranges, vec![(5, 17), (21, 35)]);
}

#[test]
fn international_forms_need_space_or_start() {
    assert_eq!(find_phone_numbers("+1 (800) 555-1212"), vec![(0, 17)]);
    assert_eq!(find_phone_numbers("tel +1 800-555-1212."), vec![(4, 19)]);
    // Without white space before the plus sign only the bracketed local form is found.
    assert_eq!(find_phone_numbers("x+1 (800) 555-1212"), vec![(4, 18)]);
    assert_eq!(find_phone_numbers("x +1(800) 555-1212"), vec![]);
    assert_eq!(find_phone_numbers("call (800) 555-1212"), vec![(5, 19)]);
}

#[test]
fn whole_words_only() {
    assert_eq!(find_phone_numbers("a555-123-4567"), vec![]);
    assert_eq!(find_phone_numbers("555-123-45678"), vec![]);
    assert_eq!(find_phone_numbers("5551234567"), vec![]);
    assert_eq!(find_phone_numbers("555-123-4567_"), vec![]);
    assert_eq!(find_phone_numbers("(555-123-4567)"), vec![(1, 13)]);
}

#[test]
fn weather_briefing_number() {
    assert_eq!(
        tag_phones("CTC FSS 1-800-WX-BRIEF.", false),
        "CTC FSS [color=#A0C0FF]1-800-WX-BRIEF[/color]."
    );
}

#[test]
fn first_alternative_wins() {
    // "1-800-555-1212" is found as a whole, not as "800-555-1212".
    assert_eq!(find_phone_numbers("1-800-555-1212"), vec![(0, 14)]);
}

#[test]
fn text_without_numbers_is_unchanged() {
    let text = "NO PHONE HERE 123-45";
    assert_eq!(tag_phones(text, true), text);
    assert_eq!(tag_phones("", false), "");
}

#[test]
fn ranges_count_characters() {
    let text = "Téléphone: 555-123-4567";
    assert_eq!(find_phone_numbers(text), vec![(11, 23)]);
    assert_eq!(
        tag_phones(text, false),
        "Téléphone: [color=#A0C0FF]555-123-4567[/color]"
    );
}

#[test]
fn tag_given_ranges() {
    assert_eq!(
        tag_phone_ranges("ab cd ef", &vec![(0, 2), (6, 8)], false),
        "[color=#A0C0FF]ab[/color] cd [color=#A0C0FF]ef[/color]"
    );
    assert_eq!(tag_phone_ranges("ab", &vec![], false), "ab");
}
