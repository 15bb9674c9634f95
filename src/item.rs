//! Items: the choices of a picker, and how one is parsed from text.
use vstd::prelude::*;
use crate::text::{
    ascii_lower, chars_of, find_char, find_index, first_or_nul, lemma_find_from, lemma_rfind_below,
    rfind_char, rfind_index, string_from_chars, sub_vec, to_ascii_lower, trim, trim_end, trimmed,
    trimmed_end,
};

verus! {

/// The mathematical value of an [`Item`].
pub struct ItemView {
    pub long_label: Seq<char>,
    pub short_label: Seq<char>,
    pub key: char,
    pub description: Option<Seq<char>>,
}

/// A selectable option: a label, a short label, a mnemonic key and an optional
/// description.
#[derive(Debug)]
pub struct Item {
    pub long_label: String,
    pub short_label: String,
    pub key: char,
    pub description: Option<String>,
}

/// The view of an optional string.
pub open spec fn opt_view(s: Option<String>) -> Option<Seq<char>> {
    match s {
        Some(t) => Some(t@),
        None => None,
    }
}

impl View for Item {
    type V = ItemView;

    open spec fn view(&self) -> ItemView {
        ItemView {
            long_label: self.long_label@,
            short_label: self.short_label@,
            key: self.key,
            description: opt_view(self.description),
        }
    }
}

/// The part of an item's text before the first colon, without trailing white
/// space; the whole text where there is no colon.
pub open spec fn parsed_head(s: Seq<char>) -> Seq<char> {
    match find_char(s, ':') {
        Some(i) => trim_end(s.subrange(0, i as int)),
        None => s,
    }
}

/// The part of an item's text after the first colon, trimmed; none where there
/// is no colon.
pub open spec fn parsed_description(s: Seq<char>) -> Option<Seq<char>> {
    match find_char(s, ':') {
        Some(i) => Some(trim(s.subrange((i + 1) as int, s.len() as int))),
        None => None,
    }
}

/// A head that ends in a parenthesised short label: the index of its last `(`.
pub open spec fn short_label_start(head: Seq<char>) -> Option<nat> {
    if head.len() > 0 && head.last() == ')' {
        rfind_char(head, '(')
    } else {
        None
    }
}

/// The item that the text `LongLabel[(ShortLabel)][: Description]` stands for.
/// The key is the first character of the short label, or of the long label
/// where no short label is given, lower-cased in the ASCII range; the NUL
/// character where that label is empty. Without a short label, the short label
/// is the key alone.
pub open spec fn parsed_item(s: Seq<char>) -> ItemView {
    let head = parsed_head(s);
    let description = parsed_description(s);
    match short_label_start(head) {
        Some(start) => {
            let short = trim(head.subrange((start + 1) as int, head.len() - 1));
            ItemView {
                long_label: trim_end(head.subrange(0, start as int)),
                short_label: short,
                key: ascii_lower(first_or_nul(short)),
                description,
            }
        },
        None => {
            let key = ascii_lower(first_or_nul(head));
            ItemView { long_label: head, short_label: seq![key], key, description }
        },
    }
}

/// The views of a sequence of items.
pub open spec fn item_views(items: Seq<Item>) -> Seq<ItemView> {
    items.map_values(|i: Item| i@)
}

impl Clone for Item {
    fn clone(&self) -> (r: Item)
        ensures
            r@ == self@,
    {
        let description = match &self.description {
            Some(d) => Some(d.clone()),
            None => None,
        };
        Item {
            long_label: self.long_label.clone(),
            short_label: self.short_label.clone(),
            key: self.key,
            description,
        }
    }
}

impl Item {
    /// Creates an item from all of its parts.
    pub fn new_full(long_label: &str, short_label: &str, key: char, description: Option<&str>) -> (r: Item)
        ensures
            r.long_label@ == long_label@,
            r.short_label@ == short_label@,
            r.key == key,
            r.description is Some <==> description is Some,
            description is Some ==> r.description->0@ == description->0@,
    {
        let description = match description {
            Some(d) => Some(d.to_owned()),
            None => None,
        };
        Item { long_label: long_label.to_owned(), short_label: short_label.to_owned(), key, description }
    }

    /// Creates an item without a description.
    pub fn new(long_label: &str, short_label: &str, key: char) -> (r: Item)
        ensures
            r.long_label@ == long_label@,
            r.short_label@ == short_label@,
            r.key == key,
            r.description is None,
    {
        Item::new_full(long_label, short_label, key, None)
    }

    /// Parses an item from text of the form
    /// `LongLabel[(ShortLabel)][: Description]`.
    pub fn parse(input: &str) -> (r: Item)
        ensures
            r@ == parsed_item(input@),
    {
        let s = chars_of(input);
        let (head, description) = match find_index(&s, ':') {
            Some(i) => {
                proof {
                    lemma_find_from(s@, ':', 0);
                }
                let head = trimmed_end(&sub_vec(&s, 0, i));
                let desc = trimmed(&sub_vec(&s, i + 1, s.len()));
                (head, Some(string_from_chars(desc.as_slice())))
            },
            None => (s, None),
        };
        assert(head@ == parsed_head(input@));
        assert(opt_view(description) == parsed_description(input@));
        let n = head.len();
        if n > 0 && head[n - 1] == ')' {
            if let Some(start) = rfind_index(&head, '(', n) {
                proof {
                    lemma_rfind_below(head@, '(', n as nat);
                }
                let long = trimmed_end(&sub_vec(&head, 0, start));
                let short = trimmed(&sub_vec(&head, start + 1, n - 1));
                let first = if short.len() > 0 { short[0] } else { '\0' };
                let key = to_ascii_lower(first);
                return Item {
                    long_label: string_from_chars(long.as_slice()),
                    short_label: string_from_chars(short.as_slice()),
                    key,
                    description,
                };
            }
        }
        let first = if n > 0 { head[0] } else { '\0' };
        let key = to_ascii_lower(first);
        let key_chars = vec![key];
        assert(key_chars@ == seq![key]);
        Item {
            long_label: string_from_chars(head.as_slice()),
            short_label: string_from_chars(key_chars.as_slice()),
            key,
            description,
        }
    }
}

impl From<&str> for Item {
    /// Parses the item, as [`Item::parse`] does.
    fn from(s: &str) -> (r: Item) {
        Item::parse(s)
    }
}

impl vstd::std_specs::convert::FromSpecImpl<&str> for Item {
    open spec fn obeys_from_spec() -> bool {
        false
    }

    open spec fn from_spec(v: &str) -> Item {
        arbitrary()
    }
}

impl From<String> for Item {
    /// Parses the item, as [`Item::parse`] does.
    fn from(s: String) -> (r: Item) {
        Item::parse(s.as_str())
    }
}

impl vstd::std_specs::convert::FromSpecImpl<String> for Item {
    open spec fn obeys_from_spec() -> bool {
        false
    }

    open spec fn from_spec(v: String) -> Item {
        arbitrary()
    }
}

} // verus!
