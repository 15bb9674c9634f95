use pick_a_boo::{
    description_lines, prompt_line, DescriptionNameWidth, DescriptionShowMode, Item, Options,
    OptionsBuilder, Picker, PickerBuilder,
};

fn described(current: usize) -> Options {
    OptionsBuilder::default()
        .item(Item::new_full("Yes", "y", 'y', Some("I love it")))
        .item(Item::new_full("So so", "s", 's', Some("I like it, but sometimes it's hard")))
        .item(Item::new("Maybe", "m", 'm'))
        .item(Item::new_full("No", "n", 'n', Some("I don't like it")))
        .current(current)
        .build()
        .unwrap()
}

#[test]
fn strip_shows_current_label_and_other_keys() {
    let picker = Picker::default();
    let opts = Options::from(&["Yes", "So so", "Maybe", "No"]).unwrap();
    assert_eq!(opts.display(&picker).to_string(), " Yes /s/m/n");
    let opts = opts.update_current(1);
    assert_eq!(opts.display(&picker).to_string(), "y/ So so /m/n");
    let opts = opts.update_current(3);
    assert_eq!(opts.display(&picker).to_string(), "y/s/m/ No ");
}

#[test]
fn strip_uses_the_delimiter() {
    let picker = PickerBuilder::default().delimiter(" | ").build().unwrap();
    let opts = Options::from(&["Yes", "So so", "Maybe", "No"]).unwrap().update_current(2);
    assert_eq!(opts.display(&picker).to_string(), "y | s |  Maybe  | n");
}

#[test]
fn strip_of_one_item_has_no_delimiter() {
    let picker = Picker::default();
    let opts = Options::from(&["Only"]).unwrap();
    assert_eq!(opts.display(&picker).to_string(), " Only ");
}

#[test]
fn prompt_line_encloses_the_strip() {
    let picker = PickerBuilder::default().paren("[]").build().unwrap();
    let opts = Options::from(&["Yes", "So so", "Maybe", "No"]).unwrap();
    assert_eq!(prompt_line("Do you like Rust?", &picker, &opts), "Do you like Rust? [ Yes /s/m/n]");
    let plain = Picker::default();
    assert_eq!(prompt_line("Q", &plain, &opts), "Q  Yes /s/m/n");
}

#[test]
fn no_description_lines_by_default() {
    let picker = Picker::default();
    assert!(description_lines(&picker, &described(0)).is_empty());
}

#[test]
fn current_only_description_line() {
    let picker = PickerBuilder::default()
        .description_show_mode(DescriptionShowMode::CurrentOnly)
        .build()
        .unwrap();
    assert_eq!(description_lines(&picker, &described(0)), vec!["    Yes    I love it".to_string()]);
    assert_eq!(description_lines(&picker, &described(2)), vec!["    Maybe  ".to_string()]);
}

#[test]
fn all_description_lines_with_auto_width() {
    let picker = PickerBuilder::default()
        .description_show_mode(DescriptionShowMode::All)
        .build()
        .unwrap();
    assert_eq!(
        description_lines(&picker, &described(2)),
        vec![
            "  Yes   I love it".to_string(),
            "  So so I like it, but sometimes it's hard".to_string(),
            "> Maybe ".to_string(),
            "  No    I don't like it".to_string(),
        ]
    );
}

#[test]
fn all_description_lines_with_fixed_and_no_width() {
    let fixed = PickerBuilder::default()
        .description_show_mode(DescriptionShowMode::All)
        .description_name_width(DescriptionNameWidth::Fixed(3))
        .build()
        .unwrap();
    let lines = description_lines(&fixed, &described(0));
    assert_eq!(lines[0], "> Yes I love it");
    assert_eq!(lines[1], "  So so I like it, but sometimes it's hard");
    let never = PickerBuilder::default()
        .description_show_mode(DescriptionShowMode::All)
        .description_name_width(DescriptionNameWidth::Never)
        .build()
        .unwrap();
    assert_eq!(description_lines(&never, &described(3))[3], "> No I don't like it");
}
