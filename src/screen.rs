//! The terminal side of a session, as plans of commands: how a screen mode is
//! entered, how each redraw starts, what a frame draws, and how the mode is
//! left. The caller performs the commands on the terminal in order.
use vstd::prelude::*;
use crate::options::Options;
use crate::picker::{DescriptionShowMode, Picker};
use crate::render::{description_lines, description_texts, prompt_line, prompt_line_text, string_views};

verus! {

/// One thing to do to the terminal.
#[derive(Debug, PartialEq, Eq)]
pub enum TermCommand {
    /// Write this text at the cursor.
    Print(String),
    /// Write a line break.
    Newline,
    /// Deliver key presses one by one, unechoed.
    EnableRawMode,
    /// Return to line-buffered, echoed input.
    DisableRawMode,
    HideCursor,
    ShowCursor,
    /// Move the cursor up this many lines.
    MoveUp(usize),
    /// Move the cursor to the top-left corner.
    MoveToOrigin,
    /// Move the cursor to the start of the next line.
    MoveToNextLine,
    /// Move the cursor to the first column.
    MoveToColumnZero,
    /// Remember the cursor position.
    SavePosition,
    /// Return the cursor to the remembered position.
    RestorePosition,
    /// Clear the line that the cursor is on.
    ClearCurrentLine,
    /// Switch to the alternate screen buffer.
    EnterAlternateScreen,
    /// Return from the alternate screen buffer.
    LeaveAlternateScreen,
    /// Send what was written so far.
    Flush,
}

/// The mathematical value of a [`TermCommand`].
pub enum Command {
    Print(Seq<char>),
    Newline,
    EnableRawMode,
    DisableRawMode,
    HideCursor,
    ShowCursor,
    MoveUp(nat),
    MoveToOrigin,
    MoveToNextLine,
    MoveToColumnZero,
    SavePosition,
    RestorePosition,
    ClearCurrentLine,
    EnterAlternateScreen,
    LeaveAlternateScreen,
    Flush,
}

impl View for TermCommand {
    type V = Command;

    open spec fn view(&self) -> Command {
        match self {
            TermCommand::Print(s) => Command::Print(s@),
            TermCommand::Newline => Command::Newline,
            TermCommand::EnableRawMode => Command::EnableRawMode,
            TermCommand::DisableRawMode => Command::DisableRawMode,
            TermCommand::HideCursor => Command::HideCursor,
            TermCommand::ShowCursor => Command::ShowCursor,
            TermCommand::MoveUp(n) => Command::MoveUp(*n as nat),
            TermCommand::MoveToOrigin => Command::MoveToOrigin,
            TermCommand::MoveToNextLine => Command::MoveToNextLine,
            TermCommand::MoveToColumnZero => Command::MoveToColumnZero,
            TermCommand::SavePosition => Command::SavePosition,
            TermCommand::RestorePosition => Command::RestorePosition,
            TermCommand::ClearCurrentLine => Command::ClearCurrentLine,
            TermCommand::EnterAlternateScreen => Command::EnterAlternateScreen,
            TermCommand::LeaveAlternateScreen => Command::LeaveAlternateScreen,
            TermCommand::Flush => Command::Flush,
        }
    }
}

/// The views of a sequence of commands.
pub open spec fn commands(s: Seq<TermCommand>) -> Seq<Command> {
    s.map_values(|c: TermCommand| c@)
}

/// The screen mode of a session, chosen once when it starts.
#[derive(Debug, Clone, Copy, PartialEq, Eq, Structural)]
pub enum Screen {
    /// The picker draws on the alternate screen buffer.
    Alternate,
    /// The picker draws in place, below what the terminal already shows, in
    /// this many reserved lines below the prompt line.
    Keeper { reserved: usize },
}

/// How many lines below the prompt line the descriptions take.
pub open spec fn reserved_lines(mode: DescriptionShowMode, item_count: nat) -> nat {
    match mode {
        DescriptionShowMode::All => item_count + 1,
        DescriptionShowMode::CurrentOnly => 1,
        DescriptionShowMode::Never => 0,
    }
}

/// `n` line breaks.
pub open spec fn newlines(n: nat) -> Seq<Command> {
    Seq::new(n, |_k: int| Command::Newline)
}

/// The commands that enter a screen mode. In place: line breaks that make
/// room for the reserved lines, raw mode, the cursor hidden and moved back
/// up to the prompt line, whose position is remembered. On the alternate
/// screen: raw mode, the cursor hidden, the alternate buffer, the cursor at
/// the origin, whose position is remembered.
pub open spec fn enter_plan(s: Screen) -> Seq<Command> {
    match s {
        Screen::Keeper { reserved } => newlines(reserved as nat) + seq![
            Command::EnableRawMode,
            Command::HideCursor,
            Command::MoveUp(reserved as nat),
            Command::SavePosition,
        ],
        Screen::Alternate => seq![
            Command::EnableRawMode,
            Command::HideCursor,
            Command::EnterAlternateScreen,
            Command::MoveToOrigin,
            Command::SavePosition,
        ],
    }
}

/// The commands that start each redraw: back to the remembered position, and
/// that line cleared.
pub open spec fn prepare_write_plan() -> Seq<Command> {
    seq![Command::RestorePosition, Command::ClearCurrentLine]
}

/// The commands that leave a screen mode. In place: the cursor shown, raw
/// mode left, and a line break below the picker. On the alternate screen:
/// the cursor shown, the primary buffer back, raw mode left.
pub open spec fn leave_plan(s: Screen) -> Seq<Command> {
    match s {
        Screen::Keeper { .. } => seq![
            Command::ShowCursor,
            Command::Flush,
            Command::DisableRawMode,
            Command::Newline,
        ],
        Screen::Alternate => seq![
            Command::ShowCursor,
            Command::LeaveAlternateScreen,
            Command::Flush,
            Command::DisableRawMode,
        ],
    }
}

/// Appends one command.
fn push_command(out: &mut Vec<TermCommand>, c: TermCommand)
    ensures
        commands(final(out)@) == commands(old(out)@).push(c@),
{
    out.push(c);
    assert(commands(out@) =~= commands(old(out)@).push(c@));
}

impl Screen {
    /// The screen mode that `picker` asks for, for `item_count` items.
    pub fn new(picker: &Picker, item_count: usize) -> (r: Screen)
        requires
            item_count < usize::MAX,
        ensures
            picker.alternate_screen ==> r == Screen::Alternate,
            !picker.alternate_screen ==> (r matches Screen::Keeper { reserved }
                && reserved as nat == reserved_lines(picker.description_show_mode, item_count as nat)),
    {
        if picker.alternate_screen {
            Screen::Alternate
        } else {
            let reserved = match picker.description_show_mode {
                DescriptionShowMode::All => item_count + 1,
                DescriptionShowMode::CurrentOnly => 1,
                DescriptionShowMode::Never => 0,
            };
            Screen::Keeper { reserved }
        }
    }

    /// The commands that enter this screen mode.
    pub fn enter(&self) -> (r: Vec<TermCommand>)
        ensures
            commands(r@) == enter_plan(*self),
    {
        let mut out: Vec<TermCommand> = Vec::new();
        match self {
            Screen::Keeper { reserved } => {
                let mut i: usize = 0;
                while i < *reserved
                    invariant
                        i <= *reserved,
                        commands(out@) == newlines(i as nat),
                    decreases *reserved - i,
                {
                    push_command(&mut out, TermCommand::Newline);
                    assert(commands(out@) =~= newlines((i + 1) as nat));
                    i = i + 1;
                }
                push_command(&mut out, TermCommand::EnableRawMode);
                push_command(&mut out, TermCommand::HideCursor);
                push_command(&mut out, TermCommand::MoveUp(*reserved));
                push_command(&mut out, TermCommand::SavePosition);
            },
            Screen::Alternate => {
                push_command(&mut out, TermCommand::EnableRawMode);
                push_command(&mut out, TermCommand::HideCursor);
                push_command(&mut out, TermCommand::EnterAlternateScreen);
                push_command(&mut out, TermCommand::MoveToOrigin);
                push_command(&mut out, TermCommand::SavePosition);
            },
        }
        assert(commands(out@) =~= enter_plan(*self));
        out
    }

    /// The commands that start each redraw.
    pub fn prepare_write(&self) -> (r: Vec<TermCommand>)
        ensures
            commands(r@) == prepare_write_plan(),
    {
        let mut out: Vec<TermCommand> = Vec::new();
        push_command(&mut out, TermCommand::RestorePosition);
        push_command(&mut out, TermCommand::ClearCurrentLine);
        assert(commands(out@) =~= prepare_write_plan());
        out
    }

    /// The commands that leave this screen mode.
    pub fn leave(&self) -> (r: Vec<TermCommand>)
        ensures
            commands(r@) == leave_plan(*self),
    {
        let mut out: Vec<TermCommand> = Vec::new();
        match self {
            Screen::Keeper { .. } => {
                push_command(&mut out, TermCommand::ShowCursor);
                push_command(&mut out, TermCommand::Flush);
                push_command(&mut out, TermCommand::DisableRawMode);
                push_command(&mut out, TermCommand::Newline);
            },
            Screen::Alternate => {
                push_command(&mut out, TermCommand::ShowCursor);
                push_command(&mut out, TermCommand::LeaveAlternateScreen);
                push_command(&mut out, TermCommand::Flush);
                push_command(&mut out, TermCommand::DisableRawMode);
            },
        }
        assert(commands(out@) =~= leave_plan(*self));
        out
    }
}

/// The commands that draw one description line: to the start of the next
/// line, cleared first where only the current item is described, then the
/// text.
pub open spec fn description_line_plan(mode: DescriptionShowMode, line: Seq<char>) -> Seq<Command> {
    if mode == DescriptionShowMode::CurrentOnly {
        seq![Command::MoveToNextLine, Command::MoveToColumnZero, Command::ClearCurrentLine, Command::Print(line)]
    } else {
        seq![Command::MoveToNextLine, Command::MoveToColumnZero, Command::Print(line)]
    }
}

/// The commands that draw the description lines `lines`, in order.
pub open spec fn description_plan(mode: DescriptionShowMode, lines: Seq<Seq<char>>) -> Seq<Command>
    decreases lines.len(),
{
    if lines.len() == 0 {
        Seq::empty()
    } else {
        description_plan(mode, lines.drop_last()) + description_line_plan(mode, lines.last())
    }
}

/// The commands that draw one frame after the redraw has been prepared: the
/// prompt line, the description lines, and a flush.
pub open spec fn frame_plan(prompt: Seq<char>, p: crate::picker::PickerView, v: crate::options::OptionsView) -> Seq<Command> {
    seq![Command::Print(prompt_line_text(prompt, p, v))]
        + description_plan(p.description_show_mode, description_texts(p, v)) + seq![Command::Flush]
}

/// The commands that draw one frame of a session.
pub fn frame(prompt: &str, picker: &Picker, opts: &Options) -> (r: Vec<TermCommand>)
    requires
        opts.wf(),
    ensures
        commands(r@) == frame_plan(prompt@, picker@, opts@),
{
    let mode = picker.description_show_mode;
    let mut out: Vec<TermCommand> = Vec::new();
    push_command(&mut out, TermCommand::Print(prompt_line(prompt, picker, opts)));
    let mut lines = description_lines(picker, opts);
    let ghost texts = string_views(lines@);
    let ghost head = commands(out@);
    let n = lines.len();
    let mut taken: Vec<String> = Vec::new();
    let mut i: usize = 0;
    while i < n
        invariant
            n == texts.len(),
            i <= n,
            lines@.len() == n - i,
            string_views(lines@) == texts.subrange(i as int, n as int),
            commands(out@) == head + description_plan(mode, texts.subrange(0, i as int)),
        decreases n - i,
    {
        let ghost old_lines = lines@;
        let line = lines.remove(0);
        assert(line == old_lines[0]);
        assert(string_views(old_lines)[0] == texts[i as int]);
        assert(line@ == texts[i as int]);
        assert(lines@ == old_lines.subrange(1, old_lines.len() as int));
        assert forall|k: int| 0 <= k < lines@.len() implies #[trigger] string_views(lines@)[k]
            == texts.subrange(i + 1, n as int)[k] by {
            assert(lines@[k] == old_lines[k + 1]);
            assert(string_views(old_lines)[k + 1] == texts.subrange(i as int, n as int)[k + 1]);
        }
        assert(string_views(lines@) =~= texts.subrange(i + 1, n as int));
        let ghost before = commands(out@);
        push_command(&mut out, TermCommand::MoveToNextLine);
        push_command(&mut out, TermCommand::MoveToColumnZero);
        if mode == DescriptionShowMode::CurrentOnly {
            push_command(&mut out, TermCommand::ClearCurrentLine);
        }
        push_command(&mut out, TermCommand::Print(line));
        proof {
            let sub = texts.subrange(0, i + 1);
            assert(sub.drop_last() =~= texts.subrange(0, i as int));
            assert(sub.last() == texts[i as int]);
            assert(commands(out@) =~= before + description_line_plan(mode, texts[i as int]));
        }
        i = i + 1;
    }
    push_command(&mut out, TermCommand::Flush);
    assert(texts.subrange(0, n as int) =~= texts);
    assert(commands(out@) =~= frame_plan(prompt@, picker@, opts@));
    out
}

} // verus!
