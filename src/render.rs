//! What the picker draws: the option strip, the prompt line and the
//! description lines.
use vstd::prelude::*;
use crate::item::{item_views, Item, ItemView};
use crate::options::{Options, OptionsView};
use crate::picker::{
    calculate_name_width, name_width, paren_strings, DescriptionShowMode, Picker, PickerView,
};
use crate::text::{chars_of, string_from_chars};

verus! {

/// How one item shows in the option strip: the current one as its long label
/// with a space on each side, any other one as its key.
pub open spec fn strip_piece(item: ItemView, selected: bool) -> Seq<char> {
    if selected {
        seq![' '] + item.long_label + seq![' ']
    } else {
        seq![item.key]
    }
}

/// The pieces of the option strip, one per item, in order.
pub open spec fn strip_pieces(v: OptionsView) -> Seq<Seq<char>> {
    Seq::new(v.items.len(), |k: int| strip_piece(v.items[k], k == v.current))
}

/// The parts with `d` between each two neighbours.
pub open spec fn join(parts: Seq<Seq<char>>, d: Seq<char>) -> Seq<char>
    decreases parts.len(),
{
    if parts.len() == 0 {
        Seq::empty()
    } else if parts.len() == 1 {
        parts[0]
    } else {
        join(parts.drop_last(), d) + d + parts.last()
    }
}

/// The option strip of a selection state with delimiter `d`.
pub open spec fn render_strip(v: OptionsView, d: Seq<char>) -> Seq<char> {
    join(strip_pieces(v), d)
}

/// Appends the characters of `s` to `out`.
pub fn push_all(out: &mut Vec<char>, s: &Vec<char>)
    ensures
        final(out)@ == old(out)@ + s@,
{
    let ghost start = out@;
    let mut i: usize = 0;
    while i < s.len()
        invariant
            i <= s@.len(),
            out@ == start + s@.subrange(0, i as int),
        decreases s@.len() - i,
    {
        out.push(s[i]);
        assert(out@ =~= start + s@.subrange(0, i + 1));
        i = i + 1;
    }
    assert(s@.subrange(0, i as int) =~= s@);
}

/// The option strip of `opts` with delimiter `delimiter`.
pub fn strip_text(opts: &Options, delimiter: &str) -> (r: String)
    ensures
        r@ == render_strip(opts@, delimiter@),
{
    let items = opts.items();
    let current = opts.current();
    let d = chars_of(delimiter);
    let ghost pieces = strip_pieces(opts@);
    let mut out: Vec<char> = Vec::new();
    let mut i: usize = 0;
    while i < items.len()
        invariant
            i <= items@.len(),
            item_views(items@) == opts@.items,
            current == opts@.current,
            d@ == delimiter@,
            pieces == strip_pieces(opts@),
            out@ == join(pieces.subrange(0, i as int), d@),
        decreases items@.len() - i,
    {
        let ghost before = out@;
        if i > 0 {
            push_all(&mut out, &d);
        }
        if i == current {
            out.push(' ');
            let label = chars_of(items[i].long_label.as_str());
            push_all(&mut out, &label);
            out.push(' ');
        } else {
            out.push(items[i].key);
        }
        proof {
            let sub = pieces.subrange(0, i + 1);
            assert(sub.drop_last() =~= pieces.subrange(0, i as int));
            assert(pieces[i as int] == strip_piece(opts@.items[i as int], i == current));
            if i == 0 {
                assert(out@ =~= join(sub, d@));
            } else {
                assert(out@ =~= before + d@ + pieces[i as int]);
            }
        }
        i = i + 1;
    }
    assert(pieces.subrange(0, i as int) =~= pieces);
    string_from_chars(out.as_slice())
}

/// The option strip of a selection state as the picker shows it.
pub struct Display<'a, 'b>(&'a Options, &'b Picker);

impl<'a, 'b> View for Display<'a, 'b> {
    type V = Seq<char>;

    closed spec fn view(&self) -> Seq<char> {
        render_strip(self.0@, self.1.delimiter@)
    }
}

impl<'a, 'b> Display<'a, 'b> {
    /// The text of the option strip.
    pub fn to_string(&self) -> (r: String)
        ensures
            r@ == self@,
    {
        strip_text(self.0, self.1.delimiter.as_str())
    }
}

impl Options {
    /// The option strip of this selection state under `picker`'s delimiter.
    pub fn display<'b>(&self, picker: &'b Picker) -> (r: Display<'_, 'b>)
        ensures
            r@ == render_strip(self@, picker.delimiter@),
    {
        Display(self, picker)
    }
}

/// The prompt line: the prompt, a space, then the option strip between the
/// picker's enclosing strings.
pub open spec fn prompt_line_text(prompt: Seq<char>, p: PickerView, v: OptionsView) -> Seq<char> {
    let (l, r) = match p.paren {
        Some(lr) => lr,
        None => (Seq::<char>::empty(), Seq::<char>::empty()),
    };
    prompt + seq![' '] + l + render_strip(v, p.delimiter) + r
}

/// The prompt line as the picker draws it.
pub fn prompt_line(prompt: &str, picker: &Picker, opts: &Options) -> (r: String)
    ensures
        r@ == prompt_line_text(prompt@, picker@, opts@),
{
    let (left, right) = paren_strings(picker);
    let strip = strip_text(opts, picker.delimiter.as_str());
    let mut out = chars_of(prompt);
    out.push(' ');
    push_all(&mut out, &chars_of(left.as_str()));
    push_all(&mut out, &chars_of(strip.as_str()));
    push_all(&mut out, &chars_of(right.as_str()));
    proof {
        if picker@.paren is None {
            assert(left@ =~= Seq::<char>::empty());
            assert(right@ =~= Seq::<char>::empty());
        }
    }
    string_from_chars(out.as_slice())
}

/// `s` padded with spaces on the right to `w` characters.
pub open spec fn pad_right(s: Seq<char>, w: nat) -> Seq<char> {
    if s.len() >= w {
        s
    } else {
        s + Seq::new((w - s.len()) as nat, |_k: int| ' ')
    }
}

/// A description, or the empty text where there is none.
pub open spec fn description_text(d: Option<Seq<char>>) -> Seq<char> {
    match d {
        Some(t) => t,
        None => Seq::empty(),
    }
}

/// The line that shows the current item alone: four spaces, the label padded
/// to six characters, a space and the description.
pub open spec fn current_description_text(item: ItemView) -> Seq<char> {
    seq![' ', ' ', ' ', ' '] + pad_right(item.long_label, 6) + seq![' '] + description_text(item.description)
}

/// The line of one item among all: `>` for the current one or a space, a
/// space, the label padded to `w` characters, a space and the description.
pub open spec fn description_row_text(item: ItemView, selected: bool, w: nat) -> Seq<char> {
    seq![if selected { '>' } else { ' ' }, ' '] + pad_right(item.long_label, w) + seq![' ']
        + description_text(item.description)
}

/// The description lines below the prompt line.
pub open spec fn description_texts(p: PickerView, v: OptionsView) -> Seq<Seq<char>> {
    match p.description_show_mode {
        DescriptionShowMode::Never => Seq::empty(),
        DescriptionShowMode::CurrentOnly => seq![current_description_text(v.items[v.current as int])],
        DescriptionShowMode::All => Seq::new(
            v.items.len(),
            |k: int|
                description_row_text(
                    v.items[k],
                    k == v.current,
                    name_width(p.description_name_width, v.items) as nat,
                ),
        ),
    }
}

/// The views of a sequence of strings.
pub open spec fn string_views(s: Seq<String>) -> Seq<Seq<char>> {
    s.map_values(|t: String| t@)
}

/// Appends `s` padded with spaces to `w` characters.
fn push_padded(out: &mut Vec<char>, s: &str, w: usize)
    ensures
        final(out)@ == old(out)@ + pad_right(s@, w as nat),
{
    let chars = chars_of(s);
    let ghost start = out@;
    push_all(out, &chars);
    let mut n = chars.len();
    while n < w
        invariant
            chars@ == s@,
            chars@.len() <= n <= w || (n == chars@.len() && n >= w),
            out@ == start + s@ + Seq::new((n - s@.len()) as nat, |_k: int| ' '),
        decreases w - n,
    {
        out.push(' ');
        assert(out@ =~= start + s@ + Seq::new((n + 1 - s@.len()) as nat, |_k: int| ' '));
        n = n + 1;
    }
    assert(out@ =~= start + pad_right(s@, w as nat));
}

/// Appends the description of `item`, or nothing where it has none.
fn push_description(out: &mut Vec<char>, item: &Item)
    ensures
        final(out)@ == old(out)@ + description_text(item@.description),
{
    match &item.description {
        Some(d) => push_all(out, &chars_of(d.as_str())),
        None => {
            assert(old(out)@ + Seq::<char>::empty() =~= old(out)@);
        },
    }
}

/// The line that shows the current item alone.
pub fn write_current_description(opts: &Options) -> (r: String)
    requires
        opts.wf(),
    ensures
        r@ == current_description_text(opts@.items[opts@.current as int]),
{
    let item = opts.current_item();
    let mut out: Vec<char> = Vec::new();
    out.push(' ');
    out.push(' ');
    out.push(' ');
    out.push(' ');
    push_padded(&mut out, item.long_label.as_str(), 6);
    out.push(' ');
    push_description(&mut out, item);
    assert(out@ =~= current_description_text(item@));
    string_from_chars(out.as_slice())
}

/// One line per item, the current one marked.
pub fn write_all_descriptions(opts: &Options, name_width: usize) -> (r: Vec<String>)
    ensures
        string_views(r@) == Seq::new(
            opts@.items.len(),
            |k: int| description_row_text(opts@.items[k], k == opts@.current, name_width as nat),
        ),
{
    let items = opts.items();
    let current = opts.current();
    let ghost rows = Seq::new(
        opts@.items.len(),
        |k: int| description_row_text(opts@.items[k], k == opts@.current, name_width as nat),
    );
    let mut lines: Vec<String> = Vec::new();
    let mut i: usize = 0;
    while i < items.len()
        invariant
            i <= items@.len(),
            item_views(items@) == opts@.items,
            current == opts@.current,
            rows == Seq::new(
                opts@.items.len(),
                |k: int| description_row_text(opts@.items[k], k == opts@.current, name_width as nat),
            ),
            lines@.len() == i,
            string_views(lines@) == rows.subrange(0, i as int),
        decreases items@.len() - i,
    {
        let item = &items[i];
        let mut out: Vec<char> = Vec::new();
        out.push(if i == current { '>' } else { ' ' });
        out.push(' ');
        push_padded(&mut out, item.long_label.as_str(), name_width);
        out.push(' ');
        push_description(&mut out, item);
        let line = string_from_chars(out.as_slice());
        assert(line@ =~= rows[i as int]);
        lines.push(line);
        assert(string_views(lines@) =~= rows.subrange(0, i + 1));
        i = i + 1;
    }
    assert(rows.subrange(0, i as int) =~= rows);
    lines
}

/// The description lines below the prompt line.
pub fn description_lines(picker: &Picker, opts: &Options) -> (r: Vec<String>)
    requires
        opts.wf(),
    ensures
        string_views(r@) == description_texts(picker@, opts@),
{
    match picker.description_show_mode {
        DescriptionShowMode::Never => {
            let r: Vec<String> = Vec::new();
            assert(string_views(r@) =~= Seq::<Seq<char>>::empty());
            r
        },
        DescriptionShowMode::CurrentOnly => {
            let line = write_current_description(opts);
            let mut r: Vec<String> = Vec::new();
            r.push(line);
            assert(string_views(r@) =~= seq![line@]);
            r
        },
        DescriptionShowMode::All => {
            let w = calculate_name_width(picker, opts);
            let r = write_all_descriptions(opts, w);
            assert(string_views(r@) =~= description_texts(picker@, opts@));
            r
        },
    }
}

} // verus!
