//! The selection state: the items, the current index, the rules that move
//! it, and the checks that a list of items passes before it is used.
use vstd::prelude::*;
use vstd::std_specs::slice::into_iter_elts;
use vstd::arithmetic::div_mod::{lemma_mod_self_0, lemma_small_mod};
use crate::item::{item_views, parsed_item, Item, ItemView};

verus! {

/// The mathematical value of an [`Options`]: the items and the current index.
pub struct OptionsView {
    pub items: Seq<ItemView>,
    pub current: nat,
}

/// No two items share a mnemonic key.
pub open spec fn keys_distinct(items: Seq<ItemView>) -> bool {
    forall|i: int, j: int| 0 <= i < items.len() && 0 <= j < items.len() && i != j
        ==> #[trigger] items[i].key != #[trigger] items[j].key
}

/// A selection state that the picker can work on.
pub open spec fn valid_selection(v: OptionsView) -> bool {
    &&& 0 < v.items.len() <= usize::MAX
    &&& v.current < v.items.len()
    &&& keys_distinct(v.items)
}

/// The index that moving forward from `current` leads to.
pub open spec fn next_index(current: nat, len: nat, wrap: bool) -> nat {
    if wrap {
        (current + 1) % (len as int) as nat
    } else if current + 1 < len {
        current + 1
    } else {
        (len - 1) as nat
    }
}

/// The index that moving backward from `current` leads to.
pub open spec fn previous_index(current: nat, len: nat, wrap: bool) -> nat {
    if current == 0 {
        if wrap { (len - 1) as nat } else { 0 }
    } else {
        (current - 1) as nat
    }
}

/// The key of the first item whose key an earlier item already has, looking
/// from index `i` on.
pub open spec fn first_repeat_from(items: Seq<ItemView>, i: nat) -> Option<char>
    decreases items.len() - i,
{
    if i >= items.len() {
        None
    } else if exists|j: int| 0 <= j < i && #[trigger] items[j].key == items[i as int].key {
        Some(items[i as int].key)
    } else {
        first_repeat_from(items, i + 1)
    }
}

/// The key of the first item whose key an earlier item already has.
pub open spec fn duplicate_key(items: Seq<ItemView>) -> Option<char> {
    first_repeat_from(items, 0)
}

/// Why items and a current index cannot form a selection state.
#[derive(Debug, Clone, Copy, PartialEq, Eq, Structural)]
pub enum OptionsError {
    /// The builder was never given any item.
    ItemsNotSet,
    /// The list of items is empty.
    NoItems,
    /// The current index does not name an item.
    CurrentOutOfBounds { current: usize, len: usize },
    /// Two items share this key.
    DuplicateKey(char),
}

/// The outcome of checking items and a current index.
pub open spec fn validation(items: Seq<ItemView>, current: usize) -> Result<(), OptionsError> {
    if items.len() == 0 {
        Err(OptionsError::NoItems)
    } else if current >= items.len() {
        Err(OptionsError::CurrentOutOfBounds { current, len: items.len() as usize })
    } else {
        match duplicate_key(items) {
            Some(k) => Err(OptionsError::DuplicateKey(k)),
            None => Ok(()),
        }
    }
}

/// Past index `i`, no item repeats an earlier key exactly when the scan finds
/// no repeat.
pub proof fn lemma_first_repeat_from(items: Seq<ItemView>, i: nat)
    requires
        i <= items.len(),
    ensures
        first_repeat_from(items, i) is None <==> (forall|a: int, b: int|
            0 <= a < b < items.len() && i <= b ==> #[trigger] items[a].key != #[trigger] items[b].key),
    decreases items.len() - i,
{
    if i < items.len() {
        lemma_first_repeat_from(items, i + 1);
        if exists|j: int| 0 <= j < i && #[trigger] items[j].key == items[i as int].key {
            let j = choose|j: int| 0 <= j < i && #[trigger] items[j].key == items[i as int].key;
            assert(items[j].key == items[i as int].key);
        }
    }
}

/// No key repeats exactly when the keys are distinct.
pub proof fn lemma_duplicate_key(items: Seq<ItemView>)
    ensures
        duplicate_key(items) is None <==> keys_distinct(items),
{
    lemma_first_repeat_from(items, 0);
    if duplicate_key(items) is None {
        assert forall|i: int, j: int| 0 <= i < items.len() && 0 <= j < items.len() && i != j
            implies #[trigger] items[i].key != #[trigger] items[j].key by {
            if i < j {
                assert(items[i].key != items[j].key);
            } else {
                assert(items[j].key != items[i].key);
            }
        }
    }
}

/// The key of the first item whose key an earlier item already has.
pub fn find_duplicate_keys(items: &Vec<Item>) -> (r: Option<char>)
    ensures
        r == duplicate_key(item_views(items@)),
{
    let ghost v = item_views(items@);
    let mut i: usize = 0;
    while i < items.len()
        invariant
            v == item_views(items@),
            i <= items@.len(),
            first_repeat_from(v, i as nat) == duplicate_key(v),
        decreases items@.len() - i,
    {
        let key = items[i].key;
        let mut j: usize = 0;
        while j < i
            invariant
                v == item_views(items@),
                j <= i < items@.len(),
                key == v[i as int].key,
                first_repeat_from(v, i as nat) == duplicate_key(v),
                forall|k: int| 0 <= k < j ==> #[trigger] v[k].key != key,
            decreases i - j,
        {
            if items[j].key == key {
                assert(v[j as int].key == v[i as int].key);
                assert(first_repeat_from(v, i as nat) == Some(key));
                return Some(key);
            }
            j = j + 1;
        }
        i = i + 1;
    }
    None
}

/// Checks that items and a current index form a selection state.
pub fn validate_option_items(items: &Vec<Item>, current: usize) -> (r: Result<(), OptionsError>)
    ensures
        r == validation(item_views(items@), current),
{
    if items.len() == 0 {
        return Err(OptionsError::NoItems);
    }
    if current >= items.len() {
        return Err(OptionsError::CurrentOutOfBounds { current, len: items.len() });
    }
    match find_duplicate_keys(items) {
        Some(k) => Err(OptionsError::DuplicateKey(k)),
        None => Ok(()),
    }
}

/// The items of a picker together with the index of the current one.
#[derive(Debug)]
pub struct Options {
    items: Vec<Item>,
    current: usize,
}

impl View for Options {
    type V = OptionsView;

    closed spec fn view(&self) -> OptionsView {
        OptionsView { items: self.items@.map_values(|i: Item| i@), current: self.current as nat }
    }
}

impl Options {
    /// The items and the current index form a selection state.
    pub open spec fn wf(&self) -> bool {
        valid_selection(self@)
    }

    /// Builds a selection state from texts, each parsed as an item, with the
    /// first item current.
    pub fn from(items: &[&str]) -> (r: Result<Options, OptionsError>)
        ensures
            match validation(items@.map_values(|s: &str| parsed_item(s@)), 0) {
                Ok(()) => r matches Ok(o) && o@.items == items@.map_values(|s: &str| parsed_item(s@))
                    && o@.current == 0 && o.wf(),
                Err(e) => r == Err::<Options, OptionsError>(e),
            },
    {
        let ghost parsed = items@.map_values(|s: &str| parsed_item(s@));
        let mut item_vec: Vec<Item> = Vec::new();
        let mut i: usize = 0;
        while i < items.len()
            invariant
                i <= items@.len(),
                parsed == items@.map_values(|s: &str| parsed_item(s@)),
                item_vec@.len() == i,
                item_views(item_vec@) == parsed.subrange(0, i as int),
            decreases items@.len() - i,
        {
            let it = Item::parse(items[i]);
            item_vec.push(it);
            assert(item_vec@[i as int]@ == parsed[i as int]);
            assert(item_views(item_vec@) =~= parsed.subrange(0, i + 1));
            i = i + 1;
        }
        assert(parsed.subrange(0, i as int) =~= parsed);
        match validate_option_items(&item_vec, 0) {
            Err(e) => Err(e),
            Ok(()) => {
                proof {
                    lemma_duplicate_key(parsed);
                }
                Ok(Options { items: item_vec, current: 0 })
            },
        }
    }

    /// The items, in order.
    pub fn iter(&self) -> (r: std::slice::Iter<'_, Item>)
        ensures
            item_views(into_iter_elts(r)) == self@.items,
    {
        let it = self.items.iter();
        proof {
            assert(into_iter_elts(it) == self.items@);
        }
        it
    }

    /// The items, in order.
    pub fn items(&self) -> (r: &Vec<Item>)
        ensures
            item_views(r@) == self@.items,
    {
        &self.items
    }

    /// The index of the current item.
    pub fn current(&self) -> (r: usize)
        ensures
            r == self@.current,
    {
        self.current
    }

    /// The current item.
    pub fn current_item(&self) -> (r: &Item)
        requires
            self.wf(),
        ensures
            r@ == self@.items[self@.current as int],
    {
        &self.items[self.current]
    }

    /// The long label of the current item.
    pub fn current_name(&self) -> (r: String)
        requires
            self.wf(),
        ensures
            r@ == self@.items[self@.current as int].long_label,
    {
        self.items[self.current].long_label.clone()
    }

    /// The same items with `index` as the current one.
    pub fn update_current(self, index: usize) -> (r: Options)
        requires
            self.wf(),
            index < self@.items.len(),
        ensures
            r@.items == self@.items,
            r@.current == index,
            r.wf(),
    {
        Options { current: index, ..self }
    }

    /// The index one step forward, wrapping to the first item or stopping at
    /// the last one.
    pub fn next(&self, wrap: bool) -> (r: usize)
        requires
            self.wf(),
        ensures
            r == next_index(self@.current, self@.items.len(), wrap),
            r < self@.items.len(),
    {
        let len = self.items.len();
        if wrap {
            proof {
                lemma_mod_self_0(len as int);
                if self.current + 1 < len {
                    lemma_small_mod((self.current + 1) as nat, len as nat);
                }
            }
            if self.current + 1 == len { 0 } else { self.current + 1 }
        } else if self.current + 1 < len {
            self.current + 1
        } else {
            len - 1
        }
    }

    /// The index one step backward, wrapping to the last item or stopping at
    /// the first one.
    pub fn previous(&self, wrap: bool) -> (r: usize)
        requires
            self.wf(),
        ensures
            r == previous_index(self@.current, self@.items.len(), wrap),
            r < self@.items.len(),
    {
        if self.current == 0 {
            if wrap { self.items.len() - 1 } else { 0 }
        } else {
            self.current - 1
        }
    }
}

/// The mathematical value of an [`OptionsBuilder`].
pub struct OptionsBuilderView {
    pub items: Option<Seq<ItemView>>,
    pub current: Option<usize>,
}

/// Collects items and a current index, and checks them when it builds an
/// [`Options`].
#[derive(Debug)]
pub struct OptionsBuilder {
    items: Option<Vec<Item>>,
    current: Option<usize>,
}

impl View for OptionsBuilder {
    type V = OptionsBuilderView;

    closed spec fn view(&self) -> OptionsBuilderView {
        OptionsBuilderView {
            items: match self.items {
                Some(v) => Some(item_views(v@)),
                None => None,
            },
            current: self.current,
        }
    }
}

impl Default for OptionsBuilder {
    fn default() -> (r: OptionsBuilder)
        ensures
            r@.items is None,
            r@.current is None,
    {
        OptionsBuilder { items: None, current: None }
    }
}

/// The outcome of building from what a builder holds.
pub open spec fn build_outcome(b: OptionsBuilderView) -> Result<(), OptionsError> {
    match b.items {
        None => Err(OptionsError::ItemsNotSet),
        Some(items) => validation(items, b.current.unwrap_or(0)),
    }
}

/// A copy of the items, item by item.
fn clone_items(items: &Vec<Item>) -> (r: Vec<Item>)
    ensures
        item_views(r@) == item_views(items@),
        items@.len() <= usize::MAX,
{
    let mut r: Vec<Item> = Vec::new();
    let mut i: usize = 0;
    while i < items.len()
        invariant
            i <= items@.len(),
            r@.len() == i,
            item_views(r@) == item_views(items@).subrange(0, i as int),
        decreases items@.len() - i,
    {
        let it = items[i].clone();
        assert(it@ == items@[i as int]@);
        r.push(it);
        assert(r@[i as int]@ == item_views(items@)[i as int]);
        assert(item_views(r@) =~= item_views(items@).subrange(0, i + 1));
        i = i + 1;
    }
    assert(item_views(items@).subrange(0, i as int) =~= item_views(items@));
    r
}

impl OptionsBuilder {
    /// Appends an item.
    pub fn item(&mut self, item: Item) -> (r: &mut OptionsBuilder)
        ensures
            *final(self) == *final(r),
            r@.current == old(self)@.current,
            r@.items == Some(match old(self)@.items {
                Some(s) => s,
                None => Seq::<ItemView>::empty(),
            }.push(item@)),
    {
        match &mut self.items {
            Some(v) => {
                let ghost before = v@;
                v.push(item);
                assert(item_views(v@) =~= item_views(before).push(item@));
            },
            None => {
                let mut v: Vec<Item> = Vec::new();
                v.push(item);
                assert(item_views(v@) =~= Seq::<ItemView>::empty().push(item@));
                self.items = Some(v);
            },
        }
        self
    }

    /// Replaces the items.
    pub fn items(&mut self, items: Vec<Item>) -> (r: &mut OptionsBuilder)
        ensures
            *final(self) == *final(r),
            r@.current == old(self)@.current,
            r@.items == Some(item_views(items@)),
    {
        self.items = Some(items);
        self
    }

    /// Sets the index of the item that is current at first.
    pub fn current(&mut self, current: usize) -> (r: &mut OptionsBuilder)
        ensures
            *final(self) == *final(r),
            r@.items == old(self)@.items,
            r@.current == Some(current),
    {
        self.current = Some(current);
        self
    }

    /// Checks the items and the current index (0 where none was set), and
    /// builds the selection state.
    pub fn build(&self) -> (r: Result<Options, OptionsError>)
        ensures
            match build_outcome(self@) {
                Ok(()) => r matches Ok(o) && o@.items == self@.items->0 && o@.current
                    == self@.current.unwrap_or(0) && o.wf(),
                Err(e) => r == Err::<Options, OptionsError>(e),
            },
    {
        match &self.items {
            None => Err(OptionsError::ItemsNotSet),
            Some(items) => {
                let current = match self.current {
                    Some(c) => c,
                    None => 0,
                };
                match validate_option_items(items, current) {
                    Err(e) => Err(e),
                    Ok(()) => {
                        proof {
                            lemma_duplicate_key(item_views(items@));
                        }
                        Ok(Options { items: clone_items(items), current })
                    },
                }
            },
        }
    }
}

} // verus!
