//! Properties that hold of the picker's navigation, key handling and
//! rendering, proved over the specifications that the functions meet.
use vstd::prelude::*;
use vstd::arithmetic::div_mod::{lemma_mod_self_0, lemma_small_mod};
use crate::options::{next_index, previous_index, valid_selection, OptionsView};
use crate::render::{join, render_strip, strip_piece, strip_pieces};
use crate::routine::{index_after, key_action, key_position_from, lemma_key_position_from, Action, KeyCode};

verus! {

/// With wrapping, moving forward and then backward returns to the index one
/// started from, and so does moving backward and then forward.
pub proof fn lemma_wrap_round_trip(v: OptionsView)
    requires
        valid_selection(v),
    ensures
        previous_index(next_index(v.current, v.items.len(), true), v.items.len(), true) == v.current,
        next_index(previous_index(v.current, v.items.len(), true), v.items.len(), true) == v.current,
{
    let len = v.items.len();
    let i = v.current;
    lemma_mod_self_0(len as int);
    if i + 1 < len {
        lemma_small_mod((i + 1) as nat, len);
    }
    if i > 0 {
        lemma_small_mod(i, len);
    }
}

/// The index after `k` steps forward from `i`.
pub open spec fn steps_forward(i: nat, len: nat, wrap: bool, k: nat) -> nat
    decreases k,
{
    if k == 0 {
        i
    } else {
        next_index(steps_forward(i, len, wrap, (k - 1) as nat), len, wrap)
    }
}

/// The index after `k` steps backward from `i`.
pub open spec fn steps_backward(i: nat, len: nat, wrap: bool, k: nat) -> nat
    decreases k,
{
    if k == 0 {
        i
    } else {
        previous_index(steps_backward(i, len, wrap, (k - 1) as nat), len, wrap)
    }
}

/// Without wrapping, any number of steps forward or backward stays within the
/// items; forward steps stop at the last item and backward steps at the first.
pub proof fn lemma_clamped_steps(v: OptionsView, k: nat)
    requires
        valid_selection(v),
    ensures
        steps_forward(v.current, v.items.len(), false, k) < v.items.len(),
        steps_backward(v.current, v.items.len(), false, k) < v.items.len(),
        next_index((v.items.len() - 1) as nat, v.items.len(), false) == v.items.len() - 1,
        previous_index(0, v.items.len(), false) == 0,
    decreases k,
{
    if k > 0 {
        lemma_clamped_steps(v, (k - 1) as nat);
    }
}

/// A character key that an item has as its mnemonic jumps to that item, from
/// any current index; the one exception is `c` with Control held, which
/// cancels.
pub proof fn lemma_mnemonic_jumps(v: OptionsView, i: int, control: bool)
    requires
        valid_selection(v),
        0 <= i < v.items.len(),
        !(v.items[i].key == 'c' && control),
    ensures
        key_action(KeyCode::Char(v.items[i].key), control, v) == Action::JumpTo(i as usize),
{
    let c = v.items[i].key;
    lemma_key_position_from(v.items, c, 0);
    if let Some(k) = key_position_from(v.items, c, 0) {
        assert(v.items[k as int].key == v.items[i].key);
    }
}

/// `c` with Control held cancels, whatever the items' mnemonics.
pub proof fn lemma_ctrl_c_cancels(v: OptionsView)
    ensures
        key_action(KeyCode::Char('c'), true, v) == Action::Cancel,
{
}

/// A key that neither is a mnemonic nor has a meaning of its own keeps the
/// current index: the action jumps to it, and the session stays where it is.
pub proof fn lemma_unmatched_key_stays(v: OptionsView, code: KeyCode, control: bool, wrap: bool)
    requires
        valid_selection(v),
        code is Other || (code matches KeyCode::Char(c) && !(c == 'c' && control)
            && forall|k: int| 0 <= k < v.items.len() ==> v.items[k].key != c),
    ensures
        key_action(code, control, v) == Action::JumpTo(v.current as usize),
        index_after(key_action(code, control, v), v, wrap) == v.current,
{
    if let KeyCode::Char(c) = code {
        lemma_key_position_from(v.items, c, 0);
    }
}

/// Where part `k` of a join starts.
pub open spec fn part_start(parts: Seq<Seq<char>>, d: Seq<char>, k: nat) -> int
    decreases k,
{
    if k == 0 {
        0
    } else {
        part_start(parts, d, (k - 1) as nat) + parts[k - 1].len() + d.len()
    }
}

/// A join is as long as the parts and the delimiters between them.
pub proof fn lemma_join_len(parts: Seq<Seq<char>>, d: Seq<char>)
    requires
        parts.len() > 0,
    ensures
        join(parts, d).len() == part_start(parts, d, (parts.len() - 1) as nat) + parts.last().len(),
    decreases parts.len(),
{
    let n = parts.len();
    if n > 1 {
        lemma_join_len(parts.drop_last(), d);
        lemma_part_start_prefix(parts, d, (n - 2) as nat);
    }
}

/// Part `k` of a join stands at its start.
pub proof fn lemma_join_part(parts: Seq<Seq<char>>, d: Seq<char>, k: nat)
    requires
        k < parts.len(),
    ensures
        part_start(parts, d, k) + parts[k as int].len() <= join(parts, d).len(),
        join(parts, d).subrange(part_start(parts, d, k), part_start(parts, d, k) + parts[k as int].len())
            == parts[k as int],
    decreases parts.len(),
{
    let n = parts.len();
    lemma_part_start_mono(parts, d, 0, k);
    lemma_join_len(parts, d);
    if n == 1 {
        assert(join(parts, d).subrange(0, parts[0].len() as int) =~= parts[0]);
    } else {
        let init = parts.drop_last();
        let j = join(init, d);
        lemma_join_len(init, d);
        lemma_part_start_prefix(parts, d, (n - 2) as nat);
        if k < n - 1 {
            lemma_join_part(init, d, k);
            lemma_part_start_prefix(parts, d, k);
            assert(join(parts, d).subrange(part_start(parts, d, k), part_start(parts, d, k) + parts[k as int].len())
                =~= j.subrange(part_start(init, d, k), part_start(init, d, k) + init[k as int].len()));
        } else {
            assert(join(parts, d).subrange(part_start(parts, d, k), part_start(parts, d, k) + parts[k as int].len())
                =~= parts.last());
        }
    }
}

/// The delimiter stands between the end of part `k` and the start of part
/// `k + 1`.
pub proof fn lemma_join_delimiter(parts: Seq<Seq<char>>, d: Seq<char>, k: nat)
    requires
        k + 1 < parts.len(),
    ensures
        part_start(parts, d, k + 1) <= join(parts, d).len(),
        join(parts, d).subrange(part_start(parts, d, k) + parts[k as int].len(), part_start(parts, d, k + 1)) == d,
    decreases parts.len(),
{
    let n = parts.len();
    let init = parts.drop_last();
    let j = join(init, d);
    lemma_part_start_mono(parts, d, 0, k);
    lemma_part_start_mono(parts, d, k + 1, (n - 1) as nat);
    lemma_join_len(parts, d);
    lemma_join_len(init, d);
    lemma_part_start_prefix(parts, d, k);
    lemma_part_start_prefix(parts, d, (n - 2) as nat);
    if k + 1 < n - 1 {
        lemma_join_delimiter(init, d, k);
        lemma_part_start_prefix(parts, d, k + 1);
        assert(join(parts, d).subrange(part_start(parts, d, k) + parts[k as int].len(), part_start(parts, d, k + 1))
            =~= j.subrange(part_start(init, d, k) + init[k as int].len(), part_start(init, d, k + 1)));
    } else {
        assert(join(parts, d).subrange(part_start(parts, d, k) + parts[k as int].len(), part_start(parts, d, k + 1))
            =~= d);
    }
}

/// A join holds each part at its start, in order, with the delimiter between
/// each part and the next, and nothing else.
pub proof fn lemma_join_layout(parts: Seq<Seq<char>>, d: Seq<char>)
    requires
        parts.len() > 0,
    ensures
        join(parts, d).len() == part_start(parts, d, (parts.len() - 1) as nat) + parts.last().len(),
        forall|k: nat| k < parts.len() ==> #[trigger] join(parts, d).subrange(
            part_start(parts, d, k),
            part_start(parts, d, k) + parts[k as int].len(),
        ) == parts[k as int],
        forall|k: nat| k + 1 < parts.len() ==> join(parts, d).subrange(
            part_start(parts, d, k) + parts[k as int].len(),
            #[trigger] part_start(parts, d, k + 1),
        ) == d,
{
    lemma_join_len(parts, d);
    assert forall|k: nat| k < parts.len() implies #[trigger] join(parts, d).subrange(
        part_start(parts, d, k),
        part_start(parts, d, k) + parts[k as int].len(),
    ) == parts[k as int] by {
        lemma_join_part(parts, d, k);
    }
    assert forall|k: nat| k + 1 < parts.len() implies join(parts, d).subrange(
        part_start(parts, d, k) + parts[k as int].len(),
        #[trigger] part_start(parts, d, k + 1),
    ) == d by {
        lemma_join_delimiter(parts, d, k);
    }
}

/// Parts start in order, each after the end of the one before and the
/// delimiter that follows it.
pub proof fn lemma_part_start_mono(parts: Seq<Seq<char>>, d: Seq<char>, a: nat, b: nat)
    requires
        a <= b <= parts.len(),
    ensures
        0 <= part_start(parts, d, a) <= part_start(parts, d, b),
        a < b ==> part_start(parts, d, a) + parts[a as int].len() + d.len() <= part_start(parts, d, b),
    decreases b,
{
    if b > 0 {
        if a < b {
            lemma_part_start_mono(parts, d, a, (b - 1) as nat);
        }
        lemma_part_start_mono(parts, d, 0, (b - 1) as nat);
    }
}

/// The starts of the parts do not depend on the parts after them.
pub proof fn lemma_part_start_prefix(parts: Seq<Seq<char>>, d: Seq<char>, k: nat)
    requires
        parts.len() > 0,
        k <= parts.len() - 1,
    ensures
        part_start(parts.drop_last(), d, k) == part_start(parts, d, k),
    decreases k,
{
    if k > 0 {
        lemma_part_start_prefix(parts, d, (k - 1) as nat);
    }
}

/// The option strip is made of one part per item, in the items' order, with
/// the delimiter between neighbours: the current item's part is its long label
/// with a space on each side, and every other item's part is its key.
pub proof fn lemma_strip_layout(v: OptionsView, d: Seq<char>)
    requires
        valid_selection(v),
    ensures
        render_strip(v, d) == join(strip_pieces(v), d),
        strip_pieces(v).len() == v.items.len(),
        strip_pieces(v)[v.current as int] == seq![' '] + v.items[v.current as int].long_label + seq![' '],
        forall|k: int| 0 <= k < v.items.len() && k != v.current ==> strip_pieces(v)[k] == seq![v.items[k].key],
        render_strip(v, d).len() == part_start(strip_pieces(v), d, (v.items.len() - 1) as nat)
            + strip_pieces(v).last().len(),
        forall|k: nat| k < v.items.len() ==> #[trigger] render_strip(v, d).subrange(
            part_start(strip_pieces(v), d, k),
            part_start(strip_pieces(v), d, k) + strip_pieces(v)[k as int].len(),
        ) == strip_pieces(v)[k as int],
        forall|k: nat| k + 1 < v.items.len() ==> render_strip(v, d).subrange(
            part_start(strip_pieces(v), d, k) + strip_pieces(v)[k as int].len(),
            #[trigger] part_start(strip_pieces(v), d, k + 1),
        ) == d,
{
    lemma_join_layout(strip_pieces(v), d);
    assert(strip_pieces(v)[v.current as int] == strip_piece(v.items[v.current as int], true));
}

} // verus!
