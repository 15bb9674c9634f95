use pick_a_boo::Item;

#[test]
fn test_from_str() {
    let it: Item = "Sample".into();
    assert_eq!(it.long_label, "Sample");
    assert_eq!(it.key, 's');
    assert!(it.description.is_none());
}

#[test]
fn test_from_string() {
    let it: Item = String::from("Example: This is example").into();
    assert_eq!(it.long_label, "Example");
    assert_eq!(it.key, 'e');
    assert_eq!(it.description.as_deref(), Some("This is example"));
}

#[test]
fn test_macro_item_1() {
    let it = Item::parse("Alpha");
    assert_eq!(it.long_label, "Alpha");
    assert_eq!(it.short_label, "a");
    assert_eq!(it.key, 'a');
    assert!(it.description.is_none());
}

#[test]
fn test_macro_parse_with_short_and_description() {
    let it = Item::parse("Upsilon(20): The twentieth letter");
    assert_eq!(it.long_label, "Upsilon");
    assert_eq!(it.short_label, "20");
    assert_eq!(it.key, '2');
    assert_eq!(it.description.as_deref(), Some("The twentieth letter"));
}

#[test]
fn test_item_parse_without_description() {
    let it = Item::parse("Phi");
    assert_eq!(it.long_label, "Phi");
    assert_eq!(it.short_label, "p");
    assert_eq!(it.key, 'p');
    assert!(it.description.is_none());
}

#[test]
fn test_item_parse_with_description() {
    let it = Item::parse("Chi: This is just test");
    assert_eq!(it.long_label, "Chi");
    assert_eq!(it.short_label, "c");
    assert_eq!(it.key, 'c');
    assert_eq!(it.description.as_deref(), Some("This is just test"));
}

#[test]
fn test_item_parse_with_short_without_description() {
    let it = Item::parse("Psi(Isp)");
    assert_eq!(it.long_label, "Psi");
    assert_eq!(it.short_label, "Isp");
    assert_eq!(it.key, 'i');
    assert!(it.description.is_none());
}

#[test]
fn test_macro_item_with_empty_name() {
    let it = Item::parse("");
    assert_eq!(it.long_label, "");
    assert_eq!(it.key, '\0');
    assert!(it.description.is_none())
}

#[test]
fn parse_keeps_colons_after_the_first() {
    let it = Item::parse("Colon: Its:too:many:colons!");
    assert_eq!(it.long_label, "Colon");
    assert_eq!(it.short_label, "c");
    assert_eq!(it.key, 'c');
    assert_eq!(it.description.as_deref(), Some("Its:too:many:colons!"));
}

#[test]
fn parse_lowercases_the_short_label_key() {
    let it = Item::parse("Label(S): With short key");
    assert_eq!(it.long_label, "Label");
    assert_eq!(it.short_label, "S");
    assert_eq!(it.key, 's');
    assert_eq!(it.description.as_deref(), Some("With short key"));
}

#[test]
fn parse_trims_white_space_around_parts() {
    let it = Item::parse("  Omega ( W )  :\t last letter \n");
    assert_eq!(it.long_label, "  Omega");
    assert_eq!(it.short_label, "W");
    assert_eq!(it.key, 'w');
    assert_eq!(it.description.as_deref(), Some("last letter"));
}

#[test]
fn parse_empty_parentheses_give_nul_key() {
    let it = Item::parse("()");
    assert_eq!(it.long_label, "");
    assert_eq!(it.short_label, "");
    assert_eq!(it.key, '\0');
}

#[test]
fn parse_closing_parenthesis_without_opening_one() {
    let it = Item::parse("Odd)");
    assert_eq!(it.long_label, "Odd)");
    assert_eq!(it.short_label, "o");
    assert_eq!(it.key, 'o');
}

#[test]
fn parse_empty_text_has_nul_short_label() {
    let it = Item::parse("");
    assert_eq!(it.short_label, "\0");
}

#[test]
fn parse_leaves_non_ascii_case_alone() {
    let it = Item::parse("Ärger");
    assert_eq!(it.key, 'Ä');
    assert_eq!(it.short_label, "Ä");
}

#[test]
fn parse_trims_unicode_white_space() {
    let it = Item::parse("Wide\u{3000}: \u{a0}text\u{2003}");
    assert_eq!(it.long_label, "Wide");
    assert_eq!(it.description.as_deref(), Some("text"));
}

#[test]
fn new_full_keeps_every_part() {
    let it = Item::new_full("Yes", "☺", 'y', Some("I love it"));
    assert_eq!(it.long_label, "Yes");
    assert_eq!(it.short_label, "☺");
    assert_eq!(it.key, 'y');
    assert_eq!(it.description.as_deref(), Some("I love it"));
}

#[test]
fn new_has_no_description() {
    let it = Item::new("No", "n", 'n');
    assert_eq!(it.long_label, "No");
    assert_eq!(it.short_label, "n");
    assert_eq!(it.key, 'n');
    assert!(it.description.is_none());
}

#[test]
fn clone_keeps_every_part() {
    let it = Item::new_full("Maybe", "m", 'm', Some("not sure"));
    let c = it.clone();
    assert_eq!(c.long_label, "Maybe");
    assert_eq!(c.short_label, "m");
    assert_eq!(c.key, 'm');
    assert_eq!(c.description.as_deref(), Some("not sure"));
}
