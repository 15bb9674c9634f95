use pick_a_boo::{Item, Options, OptionsBuilder, OptionsError};

#[test]
fn test_optionsbuilder_duplicate_keys() {
    let result = OptionsBuilder::default()
        .item(Item::new_full("Option 1", "o", 'o', Some("description 1")))
        .item(Item::new_full("Option 2", "o", 'o', Some("description 2")))
        .build();
    assert!(result.is_err());
}

#[test]
fn test_optionsbuilder_out_of_bounds_current() {
    let result = OptionsBuilder::default()
        .item(Item::new("Option 1", "1", '1'))
        .item(Item::new("Option 2", "2", '2'))
        .current(10)
        .build();
    assert!(result.is_err());
}

#[test]
fn test_optionsbuilder_empty_items() {
    let result = OptionsBuilder::default().build();
    assert!(result.is_err());
}

#[test]
fn test_optionsbuilder_no_items() {
    let result = OptionsBuilder::default().build();
    assert!(result.is_err());
}

#[test]
fn builder_errors_name_the_problem() {
    assert_eq!(OptionsBuilder::default().build().unwrap_err(), OptionsError::ItemsNotSet);
    let dup = OptionsBuilder::default()
        .item(Item::new("Option 1", "o", 'o'))
        .item(Item::new("Other", "x", 'x'))
        .item(Item::new("Option 2", "o", 'o'))
        .build();
    assert_eq!(dup.unwrap_err(), OptionsError::DuplicateKey('o'));
    let out = OptionsBuilder::default()
        .item(Item::new("Option 1", "1", '1'))
        .item(Item::new("Option 2", "2", '2'))
        .current(10)
        .build();
    assert_eq!(out.unwrap_err(), OptionsError::CurrentOutOfBounds { current: 10, len: 2 });
    let at_len = OptionsBuilder::default().item(Item::new("A", "a", 'a')).current(1).build();
    assert_eq!(at_len.unwrap_err(), OptionsError::CurrentOutOfBounds { current: 1, len: 1 });
}

#[test]
fn builder_keeps_items_and_current() {
    let opts = OptionsBuilder::default()
        .item(Item::new("Yes", "y", 'y'))
        .item(Item::new("No", "n", 'n'))
        .current(1)
        .build()
        .unwrap();
    assert_eq!(opts.current(), 1);
    assert_eq!(opts.items().len(), 2);
    assert_eq!(opts.current_item().long_label, "No");
    assert_eq!(opts.current_name(), "No");
    let labels: Vec<&str> = opts.iter().map(|i| i.long_label.as_str()).collect();
    assert_eq!(labels, vec!["Yes", "No"]);
}

#[test]
fn from_parses_each_text() {
    let opts = Options::from(&["Yes", "So so", "Maybe", "No"]).unwrap();
    assert_eq!(opts.current(), 0);
    let keys: Vec<char> = opts.iter().map(|i| i.key).collect();
    assert_eq!(keys, vec!['y', 's', 'm', 'n']);
    assert_eq!(opts.current_name(), "Yes");
}

#[test]
fn from_rejects_empty_and_duplicate_lists() {
    let empty: [&str; 0] = [];
    assert_eq!(Options::from(&empty).unwrap_err(), OptionsError::NoItems);
    assert_eq!(Options::from(&["Yes", "Yikes"]).unwrap_err(), OptionsError::DuplicateKey('y'));
}

fn four() -> Options {
    Options::from(&["Yes", "So so", "Maybe", "No"]).unwrap()
}

#[test]
fn next_wraps_and_clamps() {
    let opts = four().update_current(3);
    assert_eq!(opts.next(true), 0);
    assert_eq!(opts.next(false), 3);
    let opts = four().update_current(1);
    assert_eq!(opts.next(true), 2);
    assert_eq!(opts.next(false), 2);
}

#[test]
fn previous_wraps_and_clamps() {
    let opts = four();
    assert_eq!(opts.previous(true), 3);
    assert_eq!(opts.previous(false), 0);
    let opts = four().update_current(2);
    assert_eq!(opts.previous(true), 1);
    assert_eq!(opts.previous(false), 1);
}

#[test]
fn single_item_stays_put() {
    let opts = Options::from(&["Only"]).unwrap();
    assert_eq!(opts.next(true), 0);
    assert_eq!(opts.next(false), 0);
    assert_eq!(opts.previous(true), 0);
    assert_eq!(opts.previous(false), 0);
}

#[test]
fn wrap_round_trip_on_every_index() {
    for i in 0..4 {
        let opts = four().update_current(i);
        let n = opts.next(true);
        assert_eq!(four().update_current(n).previous(true), i);
        let p = opts.previous(true);
        assert_eq!(four().update_current(p).next(true), i);
    }
}

#[test]
fn clamped_steps_stay_in_range() {
    let mut opts = four();
    for _ in 0..10 {
        let n = opts.next(false);
        assert!(n <= 3);
        opts = opts.update_current(n);
    }
    assert_eq!(opts.current(), 3);
    for _ in 0..10 {
        let p = opts.previous(false);
        opts = opts.update_current(p);
    }
    assert_eq!(opts.current(), 0);
}

#[test]
fn items_setter_replaces_the_list() {
    let opts = OptionsBuilder::default()
        .item(Item::new("Gone", "g", 'g'))
        .items(vec![Item::new("Yes", "y", 'y'), Item::new("No", "n", 'n')])
        .item(Item::new("Maybe", "m", 'm'))
        .current(2)
        .build()
        .unwrap();
    let labels: Vec<&str> = opts.iter().map(|i| i.long_label.as_str()).collect();
    assert_eq!(labels, vec!["Yes", "No", "Maybe"]);
    assert_eq!(opts.current_name(), "Maybe");
}
