use pick_a_boo::{
    calculate_name_width, paren_strings, DescriptionNameWidth, DescriptionShowMode, Item,
    OptionsBuilder, Picker, PickerBuilder,
};

#[test]
fn test_paren_strings() {
    let picker = PickerBuilder::default().paren("()").build().unwrap();
    let (left, right) = paren_strings(&picker);
    assert_eq!(left, "(".to_string());
    assert_eq!(right, ")".to_string());
}

#[test]
fn test_empty_paren() {
    let picker = PickerBuilder::default().paren("").build().unwrap();
    let (left, right) = paren_strings(&picker);
    assert_eq!(left, "".to_string());
    assert_eq!(right, "".to_string());
}

#[test]
fn test_only_left() {
    let picker = PickerBuilder::default().paren(":").build().unwrap();
    let (left, right) = paren_strings(&picker);
    assert_eq!(left, ":".to_string());
    assert_eq!(right, "".to_string());
}

#[test]
fn test_() {
    let picker = PickerBuilder::default().paren("(<>)").build().unwrap();
    let (left, right) = paren_strings(&picker);
    assert_eq!(left, "(<".to_string());
    assert_eq!(right, ">)".to_string());
}

#[test]
fn paren_splits_by_the_rule() {
    let p = PickerBuilder::default().paren("[[]]").build().unwrap();
    assert_eq!(p.paren, Some(("[[".to_string(), "]]".to_string())));
    let p = PickerBuilder::default().paren(":::").build().unwrap();
    assert_eq!(p.paren, Some((":::".to_string(), "".to_string())));
    let p = PickerBuilder::default().paren("").build().unwrap();
    assert_eq!(p.paren, None);
    let p = PickerBuilder::default().build().unwrap();
    assert_eq!(p.paren, None);
    // Six bytes, two characters: the first three characters are all there is.
    let p = PickerBuilder::default().paren("「」").build().unwrap();
    assert_eq!(p.paren, Some(("「」".to_string(), "".to_string())));
    // Four bytes, three characters: two characters on the left.
    let p = PickerBuilder::default().paren("é()").build().unwrap();
    assert_eq!(p.paren, Some(("é(".to_string(), ")".to_string())));
}

#[test]
fn default_picker_settings() {
    let p = Picker::default();
    assert_eq!(p.delimiter, "/");
    assert!(!p.alternate_screen);
    assert!(!p.allow_wrap);
    assert_eq!(p.paren, None);
    assert_eq!(p.description_show_mode, DescriptionShowMode::Never);
    assert_eq!(p.description_name_width, DescriptionNameWidth::Auto);
}

#[test]
fn builder_sets_every_field() {
    let p = PickerBuilder::default()
        .delimiter(" | ")
        .alternate_screen(true)
        .allow_wrap(true)
        .paren("[]")
        .description_show_mode(DescriptionShowMode::All)
        .description_name_width(DescriptionNameWidth::Fixed(3))
        .build()
        .unwrap();
    assert_eq!(p.delimiter, " | ");
    assert!(p.alternate_screen);
    assert!(p.allow_wrap);
    assert_eq!(p.paren, Some(("[".to_string(), "]".to_string())));
    assert_eq!(p.description_show_mode, DescriptionShowMode::All);
    assert_eq!(p.description_name_width, DescriptionNameWidth::Fixed(3));
}

fn short_and_longer() -> pick_a_boo::Options {
    OptionsBuilder::default()
        .item(Item::new("Short", "s", 's'))
        .item(Item::new("LongerName", "l", 'l'))
        .build()
        .unwrap()
}

#[test]
fn test_fixed_width() {
    let picker = PickerBuilder::default()
        .description_name_width(DescriptionNameWidth::Fixed(7))
        .build()
        .unwrap();
    let options = short_and_longer();
    let width = calculate_name_width(&picker, &options);
    assert_eq!(width, 7);
}

#[test]
fn test_auto_width() {
    let picker = PickerBuilder::default()
        .description_name_width(DescriptionNameWidth::Auto)
        .build()
        .unwrap();
    let options = short_and_longer();
    let width = calculate_name_width(&picker, &options);
    assert_eq!(width, "LongerName".len());
}

#[test]
fn test_never_width() {
    let picker = PickerBuilder::default()
        .description_name_width(DescriptionNameWidth::Never)
        .build()
        .unwrap();
    let options = short_and_longer();
    let width = calculate_name_width(&picker, &options);
    assert_eq!(width, 0);
}

#[test]
fn auto_width_counts_bytes() {
    let picker = Picker::default();
    let options = OptionsBuilder::default()
        .item(Item::new("é", "e", 'e'))
        .item(Item::new("ab", "a", 'a'))
        .build()
        .unwrap();
    assert_eq!(calculate_name_width(&picker, &options), 2);
}
