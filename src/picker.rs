//! The picker's configuration and its builder.
use vstd::prelude::*;
use vstd::string::StringSliceAdditionalSpecFns;
use crate::item::ItemView;
use crate::options::Options;
use crate::text::{chars_of, string_from_chars};

verus! {

/// Which item descriptions are shown below the option strip.
#[derive(Debug, Clone, Copy, PartialEq, Eq, Structural)]
pub enum DescriptionShowMode {
    /// No description is shown.
    Never,
    /// One line shows the current item's label and description.
    CurrentOnly,
    /// One line per item, the current one marked with `>`.
    All,
}

/// How wide the label column of the description lines is.
#[derive(Debug, Clone, Copy, PartialEq, Eq, Structural)]
pub enum DescriptionNameWidth {
    /// Labels are not padded.
    Never,
    /// Labels are padded to this many characters.
    Fixed(usize),
    /// Labels are padded to the length of the longest label.
    Auto,
}

/// How the picker looks and navigates.
#[derive(Debug)]
pub struct Picker {
    /// Separates the entries of the option strip.
    pub delimiter: String,
    /// Whether the picker draws on the terminal's alternate screen.
    pub alternate_screen: bool,
    /// Whether moving past either end wraps around to the other one.
    pub allow_wrap: bool,
    /// Left and right strings around the option strip.
    pub paren: Option<(String, String)>,
    /// Which descriptions are shown.
    pub description_show_mode: DescriptionShowMode,
    /// How wide the label column of the description lines is.
    pub description_name_width: DescriptionNameWidth,
}

/// The mathematical value of a [`Picker`].
pub struct PickerView {
    pub delimiter: Seq<char>,
    pub alternate_screen: bool,
    pub allow_wrap: bool,
    pub paren: Option<(Seq<char>, Seq<char>)>,
    pub description_show_mode: DescriptionShowMode,
    pub description_name_width: DescriptionNameWidth,
}

/// The view of optional enclosing strings.
pub open spec fn paren_view(p: Option<(String, String)>) -> Option<(Seq<char>, Seq<char>)> {
    match p {
        Some((l, r)) => Some((l@, r@)),
        None => None,
    }
}

impl View for Picker {
    type V = PickerView;

    open spec fn view(&self) -> PickerView {
        PickerView {
            delimiter: self.delimiter@,
            alternate_screen: self.alternate_screen,
            allow_wrap: self.allow_wrap,
            paren: paren_view(self.paren),
            description_show_mode: self.description_show_mode,
            description_name_width: self.description_name_width,
        }
    }
}

/// The configuration that a picker has unless told otherwise: `/` between
/// entries, no alternate screen, no wrapping, no enclosing strings, no
/// descriptions, label width fitted to the longest label.
pub open spec fn default_picker() -> PickerView {
    PickerView {
        delimiter: seq!['/'],
        alternate_screen: false,
        allow_wrap: false,
        paren: None,
        description_show_mode: DescriptionShowMode::Never,
        description_name_width: DescriptionNameWidth::Auto,
    }
}

impl Default for Picker {
    fn default() -> (r: Picker)
        ensures
            r@ == default_picker(),
    {
        let delimiter = "/";
        proof {
            reveal_strlit("/");
        }
        assert(delimiter@ == seq!['/']);
        Picker {
            delimiter: delimiter.to_owned(),
            alternate_screen: false,
            allow_wrap: false,
            paren: None,
            description_show_mode: DescriptionShowMode::Never,
            description_name_width: DescriptionNameWidth::Auto,
        }
    }
}

/// The length in bytes of the UTF-8 encoding of `s`, as `str::len` gives it.
pub open spec fn utf8_len(s: Seq<char>) -> usize {
    vstd::utf8::encode_utf8(s).len() as usize
}

/// The enclosing strings that one string stands for: none for the empty
/// string; the whole string on the left where its UTF-8 length is odd; else
/// the first half of that length, counted in characters, on the left and the
/// rest on the right.
pub open spec fn paren_split(s: Seq<char>) -> Option<(Seq<char>, Seq<char>)> {
    if s.len() == 0 {
        None
    } else if utf8_len(s) % 2 != 0 {
        Some((s, Seq::<char>::empty()))
    } else {
        let half: nat = if utf8_len(s) / 2 <= s.len() { (utf8_len(s) / 2) as nat } else { s.len() };
        Some((s.subrange(0, half as int), s.subrange(half as int, s.len() as int)))
    }
}

/// The mathematical value of a [`PickerBuilder`]: each setting, if set.
pub struct PickerBuilderView {
    pub delimiter: Option<Seq<char>>,
    pub alternate_screen: Option<bool>,
    pub allow_wrap: Option<bool>,
    pub paren: Option<Option<(Seq<char>, Seq<char>)>>,
    pub description_show_mode: Option<DescriptionShowMode>,
    pub description_name_width: Option<DescriptionNameWidth>,
}

/// Collects the settings of a [`Picker`]; what is not set keeps its default.
#[derive(Debug)]
pub struct PickerBuilder {
    delimiter: Option<String>,
    alternate_screen: Option<bool>,
    allow_wrap: Option<bool>,
    paren: Option<Option<(String, String)>>,
    description_show_mode: Option<DescriptionShowMode>,
    description_name_width: Option<DescriptionNameWidth>,
}

impl View for PickerBuilder {
    type V = PickerBuilderView;

    closed spec fn view(&self) -> PickerBuilderView {
        PickerBuilderView {
            delimiter: match self.delimiter {
                Some(d) => Some(d@),
                None => None,
            },
            alternate_screen: self.alternate_screen,
            allow_wrap: self.allow_wrap,
            paren: match self.paren {
                Some(p) => Some(paren_view(p)),
                None => None,
            },
            description_show_mode: self.description_show_mode,
            description_name_width: self.description_name_width,
        }
    }
}

/// The picker that a builder's settings give.
pub open spec fn built_picker(b: PickerBuilderView) -> PickerView {
    let d = default_picker();
    PickerView {
        delimiter: b.delimiter.unwrap_or(d.delimiter),
        alternate_screen: b.alternate_screen.unwrap_or(d.alternate_screen),
        allow_wrap: b.allow_wrap.unwrap_or(d.allow_wrap),
        paren: b.paren.unwrap_or(d.paren),
        description_show_mode: b.description_show_mode.unwrap_or(d.description_show_mode),
        description_name_width: b.description_name_width.unwrap_or(d.description_name_width),
    }
}

/// The error type of [`PickerBuilder::build`]. Every setting has a default, so
/// building never fails.
#[derive(Debug, Clone, Copy, PartialEq, Eq)]
pub struct PickerBuildError;

impl Default for PickerBuilder {
    fn default() -> (r: PickerBuilder)
        ensures
            r@.delimiter is None,
            r@.alternate_screen is None,
            r@.allow_wrap is None,
            r@.paren is None,
            r@.description_show_mode is None,
            r@.description_name_width is None,
    {
        PickerBuilder {
            delimiter: None,
            alternate_screen: None,
            allow_wrap: None,
            paren: None,
            description_show_mode: None,
            description_name_width: None,
        }
    }
}

fn copy_str(s: &String) -> (r: String)
    ensures
        r@ == s@,
{
    s.clone()
}

impl PickerBuilder {
    /// Sets the string between the entries of the option strip.
    pub fn delimiter(&mut self, delimiter: &str) -> (r: &mut PickerBuilder)
        ensures
            *final(self) == *final(r),
            r@ == (PickerBuilderView { delimiter: Some(delimiter@), ..old(self)@ }),
    {
        self.delimiter = Some(delimiter.to_owned());
        self
    }

    /// Sets whether the picker draws on the alternate screen.
    pub fn alternate_screen(&mut self, on: bool) -> (r: &mut PickerBuilder)
        ensures
            *final(self) == *final(r),
            r@ == (PickerBuilderView { alternate_screen: Some(on), ..old(self)@ }),
    {
        self.alternate_screen = Some(on);
        self
    }

    /// Sets whether navigation wraps around.
    pub fn allow_wrap(&mut self, on: bool) -> (r: &mut PickerBuilder)
        ensures
            *final(self) == *final(r),
            r@ == (PickerBuilderView { allow_wrap: Some(on), ..old(self)@ }),
    {
        self.allow_wrap = Some(on);
        self
    }

    /// Sets the strings around the option strip from one string: an even
    /// one is split in halves, an odd one stands on the left alone, and the
    /// empty one means none.
    pub fn paren(&mut self, paren: &str) -> (r: &mut PickerBuilder)
        ensures
            *final(self) == *final(r),
            r@ == (PickerBuilderView { paren: Some(paren_split(paren@)), ..old(self)@ }),
    {
        let chars = chars_of(paren);
        let bytes = paren.len();
        if chars.len() == 0 {
            self.paren = Some(None);
        } else if bytes % 2 != 0 {
            self.paren = Some(Some((paren.to_owned(), String::new())));
        } else {
            let half = if bytes / 2 <= chars.len() { bytes / 2 } else { chars.len() };
            let left = string_from_chars(&chars.as_slice()[0..half]);
            let right = string_from_chars(&chars.as_slice()[half..chars.len()]);
            self.paren = Some(Some((left, right)));
        }
        self
    }

    /// Sets which descriptions are shown.
    pub fn description_show_mode(&mut self, mode: DescriptionShowMode) -> (r: &mut PickerBuilder)
        ensures
            *final(self) == *final(r),
            r@ == (PickerBuilderView { description_show_mode: Some(mode), ..old(self)@ }),
    {
        self.description_show_mode = Some(mode);
        self
    }

    /// Sets how wide the label column of the description lines is.
    pub fn description_name_width(&mut self, width: DescriptionNameWidth) -> (r: &mut PickerBuilder)
        ensures
            *final(self) == *final(r),
            r@ == (PickerBuilderView { description_name_width: Some(width), ..old(self)@ }),
    {
        self.description_name_width = Some(width);
        self
    }

    /// Builds the picker; settings that were not made take their defaults.
    pub fn build(&self) -> (r: Result<Picker, PickerBuildError>)
        ensures
            r matches Ok(p) && p@ == built_picker(self@),
    {
        let d = Picker::default();
        let delimiter = match &self.delimiter {
            Some(s) => copy_str(s),
            None => d.delimiter,
        };
        let paren = match &self.paren {
            Some(Some((l, r))) => Some((copy_str(l), copy_str(r))),
            Some(None) => None,
            None => d.paren,
        };
        Ok(Picker {
            delimiter,
            alternate_screen: match self.alternate_screen {
                Some(b) => b,
                None => d.alternate_screen,
            },
            allow_wrap: match self.allow_wrap {
                Some(b) => b,
                None => d.allow_wrap,
            },
            paren,
            description_show_mode: match self.description_show_mode {
                Some(m) => m,
                None => d.description_show_mode,
            },
            description_name_width: match self.description_name_width {
                Some(w) => w,
                None => d.description_name_width,
            },
        })
    }
}

/// The strings around the option strip; empty ones where there are none.
pub fn paren_strings(picker: &Picker) -> (r: (String, String))
    ensures
        match picker@.paren {
            Some((l, rr)) => r.0@ == l && r.1@ == rr,
            None => r.0@.len() == 0 && r.1@.len() == 0,
        },
{
    match &picker.paren {
        Some((left, right)) => (copy_str(left), copy_str(right)),
        None => (String::new(), String::new()),
    }
}

/// The longest UTF-8 length among the long labels of `items[..n]`.
pub open spec fn max_label_len(items: Seq<ItemView>, n: nat) -> usize
    decreases n,
{
    if n == 0 || n > items.len() {
        0
    } else {
        let m = max_label_len(items, (n - 1) as nat);
        let l = utf8_len(items[n - 1].long_label);
        if l > m { l } else { m }
    }
}

/// The width of the label column for a width policy.
pub open spec fn name_width(policy: DescriptionNameWidth, items: Seq<ItemView>) -> usize {
    match policy {
        DescriptionNameWidth::Fixed(w) => w,
        DescriptionNameWidth::Never => 0,
        DescriptionNameWidth::Auto => max_label_len(items, items.len()),
    }
}

/// The width of the label column of the description lines.
pub fn calculate_name_width(picker: &Picker, opts: &Options) -> (r: usize)
    ensures
        r == name_width(picker.description_name_width, opts@.items),
{
    match picker.description_name_width {
        DescriptionNameWidth::Fixed(w) => w,
        DescriptionNameWidth::Never => 0,
        DescriptionNameWidth::Auto => {
            let items = opts.items();
            let mut m: usize = 0;
            let mut i: usize = 0;
            while i < items.len()
                invariant
                    i <= items@.len(),
                    crate::item::item_views(items@) == opts@.items,
                    m == max_label_len(opts@.items, i as nat),
                decreases items@.len() - i,
            {
                let l = items[i].long_label.as_str().len();
                assert(l == utf8_len(opts@.items[i as int].long_label));
                if l > m {
                    m = l;
                }
                i = i + 1;
            }
            m
        },
    }
}

} // verus!
