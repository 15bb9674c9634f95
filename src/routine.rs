//! The decisions of a picking session: which action a key press asks for, and
//! what the session does with it.
use vstd::prelude::*;
use crate::item::{item_views, Item, ItemView};
use crate::options::{next_index, previous_index, Options, OptionsBuilder, OptionsError, OptionsView};
use crate::picker::Picker;
use crate::text::same_text;

verus! {

/// A key as the picker reads it.
#[derive(Debug, Clone, Copy, PartialEq, Eq, Structural)]
pub enum KeyCode {
    /// A character key.
    Char(char),
    Left,
    Right,
    Up,
    Down,
    Enter,
    Esc,
    /// Any key that the picker gives no meaning (function keys, tab, ...).
    Other,
}

/// What a key press asks the session to do.
#[derive(Debug, Clone, Copy, PartialEq, Eq, Structural)]
pub enum Action {
    /// End the session without a choice.
    Cancel,
    /// End the session with the current item.
    Confirm,
    /// Make this index the current one.
    JumpTo(usize),
    /// Move one item forward.
    Next,
    /// Move one item backward.
    Previous,
}

/// The first index at or after `i` whose item has key `c`.
pub open spec fn key_position_from(items: Seq<ItemView>, c: char, i: nat) -> Option<nat>
    decreases items.len() - i,
{
    if i >= items.len() {
        None
    } else if items[i as int].key == c {
        Some(i)
    } else {
        key_position_from(items, c, i + 1)
    }
}

/// The first index whose item has key `c`.
pub open spec fn key_position(items: Seq<ItemView>, c: char) -> Option<nat> {
    key_position_from(items, c, 0)
}

/// The action that a key asks for: Ctrl+C cancels; another character jumps to
/// the first item with that key, or stays where no item has it; Left and Up
/// move backward, Right and Down forward; Enter confirms; Escape cancels; any
/// other key stays.
pub open spec fn key_action(code: KeyCode, control: bool, v: OptionsView) -> Action {
    match code {
        KeyCode::Char(c) => if c == 'c' && control {
            Action::Cancel
        } else {
            match key_position(v.items, c) {
                Some(i) => Action::JumpTo(i as usize),
                None => Action::JumpTo(v.current as usize),
            }
        },
        KeyCode::Left | KeyCode::Up => Action::Previous,
        KeyCode::Right | KeyCode::Down => Action::Next,
        KeyCode::Enter => Action::Confirm,
        KeyCode::Esc => Action::Cancel,
        KeyCode::Other => Action::JumpTo(v.current as usize),
    }
}

/// A hit of the key search lies in range and has the key.
pub proof fn lemma_key_position_from(items: Seq<ItemView>, c: char, i: nat)
    ensures
        key_position_from(items, c, i) matches Some(k) ==> i <= k < items.len() && items[k as int].key == c,
        key_position_from(items, c, i) is None ==> forall|k: int| i <= k < items.len() ==> items[k].key != c,
    decreases items.len() - i,
{
    if i < items.len() {
        lemma_key_position_from(items, c, i + 1);
    }
}

/// The action that a key press asks for.
pub fn process_key(key_code: KeyCode, control: bool, options: &Options) -> (r: Action)
    ensures
        r == key_action(key_code, control, options@),
{
    match key_code {
        KeyCode::Char(c) => {
            if c == 'c' && control {
                Action::Cancel
            } else {
                let items = options.items();
                let mut i: usize = 0;
                while i < items.len()
                    invariant
                        key_code == KeyCode::Char(c),
                        !(c == 'c' && control),
                        i <= items@.len(),
                        item_views(items@) == options@.items,
                        key_position_from(options@.items, c, i as nat) == key_position(options@.items, c),
                    decreases items@.len() - i,
                {
                    assert(options@.items[i as int] == items@[i as int]@);
                    if items[i].key == c {
                        return Action::JumpTo(i);
                    }
                    i = i + 1;
                }
                Action::JumpTo(options.current())
            }
        },
        KeyCode::Left | KeyCode::Up => Action::Previous,
        KeyCode::Right | KeyCode::Down => Action::Next,
        KeyCode::Enter => Action::Confirm,
        KeyCode::Esc => Action::Cancel,
        KeyCode::Other => Action::JumpTo(options.current()),
    }
}

/// Where a session stands after one key press.
#[derive(Debug)]
pub enum Step {
    /// The session goes on with this selection state.
    Continue(Options),
    /// The session ended with this label.
    Confirmed(String),
    /// The session ended without a choice.
    Cancelled,
}

/// The current index after an action that keeps the session going.
pub open spec fn index_after(a: Action, v: OptionsView, wrap: bool) -> nat {
    match a {
        Action::JumpTo(i) => i as nat,
        Action::Next => next_index(v.current, v.items.len(), wrap),
        Action::Previous => previous_index(v.current, v.items.len(), wrap),
        _ => v.current,
    }
}

/// What a session does with a key press: it ends with the current label on
/// `Confirm`, ends without a choice on `Cancel`, and otherwise goes on with
/// the index that the action leads to.
pub open spec fn step_matches(s: Step, code: KeyCode, control: bool, wrap: bool, v: OptionsView) -> bool {
    match key_action(code, control, v) {
        Action::Confirm => s matches Step::Confirmed(l) && l@ == v.items[v.current as int].long_label,
        Action::Cancel => s is Cancelled,
        a => s matches Step::Continue(o) && o.wf() && o@.items == v.items
            && o@.current == index_after(a, v, wrap),
    }
}

/// Applies one key press to a running session.
pub fn advance(picker: &Picker, opts: Options, key_code: KeyCode, control: bool) -> (r: Step)
    requires
        opts.wf(),
    ensures
        step_matches(r, key_code, control, picker.allow_wrap, opts@),
{
    let action = process_key(key_code, control, &opts);
    proof {
        if let KeyCode::Char(c) = key_code {
            lemma_key_position_from(opts@.items, c, 0);
        }
    }
    match action {
        Action::Confirm => Step::Confirmed(opts.current_name()),
        Action::Cancel => Step::Cancelled,
        Action::JumpTo(i) => Step::Continue(opts.update_current(i)),
        Action::Next => {
            let i = opts.next(picker.allow_wrap);
            Step::Continue(opts.update_current(i))
        },
        Action::Previous => {
            let i = opts.previous(picker.allow_wrap);
            Step::Continue(opts.update_current(i))
        },
    }
}

/// The two items of a yes-or-no question: `Yes` with key `y`, `No` with key
/// `n`, neither with a description.
pub open spec fn yes_no_items() -> Seq<ItemView> {
    seq![
        ItemView { long_label: seq!['Y', 'e', 's'], short_label: seq!['y'], key: 'y', description: None },
        ItemView { long_label: seq!['N', 'o'], short_label: seq!['n'], key: 'n', description: None },
    ]
}

/// The selection state of a yes-or-no question, with `Yes` current when
/// `default_yes` holds and `No` current otherwise.
pub fn yes_no_options(default_yes: bool) -> (r: Result<Options, OptionsError>)
    ensures
        r matches Ok(o) && o.wf() && o@.items == yes_no_items()
            && o@.current == (if default_yes { 0nat } else { 1nat }),
{
    proof {
        reveal_strlit("Yes");
        reveal_strlit("y");
        reveal_strlit("No");
        reveal_strlit("n");
    }
    let yes_item = Item::new_full("Yes", "y", 'y', None);
    let no_item = Item::new_full("No", "n", 'n', None);
    assert(yes_item@.long_label =~= seq!['Y', 'e', 's']);
    assert(yes_item@.short_label =~= seq!['y']);
    assert(no_item@.long_label =~= seq!['N', 'o']);
    assert(no_item@.short_label =~= seq!['n']);
    assert(yes_item@ == yes_no_items()[0]);
    assert(no_item@ == yes_no_items()[1]);
    let mut builder = OptionsBuilder::default();
    builder.item(yes_item);
    builder.item(no_item);
    builder.current(if default_yes { 0 } else { 1 });
    let ghost items = yes_no_items();
    assert(builder@.items->0 =~= items);
    assert(crate::options::first_repeat_from(items, 2) is None);
    assert(crate::options::first_repeat_from(items, 1) is None);
    assert(crate::options::duplicate_key(items) is None);
    builder.build()
}

/// The answer that a confirmed label gives to a yes-or-no question: `Yes` is
/// true, `No` is false; any other label, or a cancelled session, gives none.
pub open spec fn yes_no_value(answer: Option<Seq<char>>) -> Option<bool> {
    match answer {
        Some(l) => if l == seq!['Y', 'e', 's'] {
            Some(true)
        } else if l == seq!['N', 'o'] {
            Some(false)
        } else {
            None
        },
        None => None,
    }
}

/// The answer that the outcome of a yes-or-no session gives.
pub fn yes_no_answer(answer: Option<String>) -> (r: Option<bool>)
    ensures
        r == yes_no_value(match answer {
            Some(s) => Some(s@),
            None => None,
        }),
{
    proof {
        reveal_strlit("Yes");
        reveal_strlit("No");
        assert("Yes"@ =~= seq!['Y', 'e', 's']);
        assert("No"@ =~= seq!['N', 'o']);
    }
    match answer {
        Some(choice) => {
            if same_text(choice.as_str(), "Yes") {
                Some(true)
            } else if same_text(choice.as_str(), "No") {
                Some(false)
            } else {
                None
            }
        },
        None => None,
    }
}

} // verus!
