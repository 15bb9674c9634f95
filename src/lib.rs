//! A small single-line option picker for terminal programs.
//!
//! The library holds the picker's logic: items and their parsing, the
//! selection state and its navigation rules, the mapping of key presses
//! to actions, the rendering of the option strip and description lines, and
//! the plans of terminal commands that enter, redraw and leave the drawing
//! mode. Reading keys and performing those commands on a real terminal is left
//! to the caller.

pub mod item;
pub mod laws;
pub mod options;
pub mod picker;
pub mod render;
pub mod routine;
pub mod screen;
pub mod text;

pub use item::{Item, ItemView};
pub use options::{Options, OptionsBuilder, OptionsError, OptionsView};
pub use picker::{
    calculate_name_width, paren_strings, DescriptionNameWidth, DescriptionShowMode, Picker,
    PickerBuildError, PickerBuilder, PickerView,
};
pub use render::{description_lines, prompt_line, Display};
pub use routine::{advance, process_key, yes_no_answer, yes_no_options, Action, KeyCode, Step};
pub use screen::{frame, Screen, TermCommand};
