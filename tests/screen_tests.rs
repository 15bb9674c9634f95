use pick_a_boo::{
    frame, DescriptionShowMode, Item, Options, OptionsBuilder, Picker, PickerBuilder, Screen,
    TermCommand,
};

fn picker(alternate: bool, mode: DescriptionShowMode) -> Picker {
    PickerBuilder::default()
        .alternate_screen(alternate)
        .description_show_mode(mode)
        .build()
        .unwrap()
}

#[test]
fn reserved_lines_follow_the_description_mode() {
    assert_eq!(Screen::new(&picker(false, DescriptionShowMode::All), 4), Screen::Keeper { reserved: 5 });
    assert_eq!(Screen::new(&picker(false, DescriptionShowMode::CurrentOnly), 4), Screen::Keeper { reserved: 1 });
    assert_eq!(Screen::new(&picker(false, DescriptionShowMode::Never), 4), Screen::Keeper { reserved: 0 });
    assert_eq!(Screen::new(&picker(true, DescriptionShowMode::All), 4), Screen::Alternate);
}

#[test]
fn entering_in_place_reserves_room() {
    let s = Screen::Keeper { reserved: 2 };
    assert_eq!(
        s.enter(),
        vec![
            TermCommand::Newline,
            TermCommand::Newline,
            TermCommand::EnableRawMode,
            TermCommand::HideCursor,
            TermCommand::MoveUp(2),
            TermCommand::SavePosition,
        ]
    );
}

#[test]
fn entering_the_alternate_screen() {
    assert_eq!(
        Screen::Alternate.enter(),
        vec![
            TermCommand::EnableRawMode,
            TermCommand::HideCursor,
            TermCommand::EnterAlternateScreen,
            TermCommand::MoveToOrigin,
            TermCommand::SavePosition,
        ]
    );
}

#[test]
fn each_redraw_restores_and_clears() {
    let expected = vec![TermCommand::RestorePosition, TermCommand::ClearCurrentLine];
    assert_eq!(Screen::Alternate.prepare_write(), expected);
    assert_eq!(Screen::Keeper { reserved: 3 }.prepare_write(), expected);
}

#[test]
fn leaving_restores_the_terminal() {
    assert_eq!(
        Screen::Keeper { reserved: 1 }.leave(),
        vec![
            TermCommand::ShowCursor,
            TermCommand::Flush,
            TermCommand::DisableRawMode,
            TermCommand::Newline,
        ]
    );
    assert_eq!(
        Screen::Alternate.leave(),
        vec![
            TermCommand::ShowCursor,
            TermCommand::LeaveAlternateScreen,
            TermCommand::Flush,
            TermCommand::DisableRawMode,
        ]
    );
}

fn two() -> Options {
    OptionsBuilder::default()
        .item(Item::new_full("Yes", "y", 'y', Some("sure")))
        .item(Item::new("No", "n", 'n'))
        .build()
        .unwrap()
}

#[test]
fn frame_without_descriptions() {
    let p = picker(false, DescriptionShowMode::Never);
    assert_eq!(
        frame("Ok?", &p, &two()),
        vec![TermCommand::Print("Ok?  Yes /n".to_string()), TermCommand::Flush]
    );
}

#[test]
fn frame_with_current_description_clears_its_line() {
    let p = picker(false, DescriptionShowMode::CurrentOnly);
    assert_eq!(
        frame("Ok?", &p, &two()),
        vec![
            TermCommand::Print("Ok?  Yes /n".to_string()),
            TermCommand::MoveToNextLine,
            TermCommand::MoveToColumnZero,
            TermCommand::ClearCurrentLine,
            TermCommand::Print("    Yes    sure".to_string()),
            TermCommand::Flush,
        ]
    );
}

#[test]
fn frame_with_all_descriptions() {
    let p = picker(true, DescriptionShowMode::All);
    assert_eq!(
        frame("Ok?", &p, &two().update_current(1)),
        vec![
            TermCommand::Print("Ok? y/ No ".to_string()),
            TermCommand::MoveToNextLine,
            TermCommand::MoveToColumnZero,
            TermCommand::Print("  Yes sure".to_string()),
            TermCommand::MoveToNextLine,
            TermCommand::MoveToColumnZero,
            TermCommand::Print("> No  ".to_string()),
            TermCommand::Flush,
        ]
    );
}
