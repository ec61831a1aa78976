//! The plain snapshot table of the command-line interface: its list of
//! snapshots, newest key first, its selection, and its keys.

use vstd::prelude::*;
use vstd::string::*;
use crate::ui::models::Key;

verus! {

broadcast use vstd::seq_lib::group_seq_properties;

/// `a` comes before `b` in the order of Rust's string comparison: the
/// lexicographic order of their characters by code point (which is the
/// byte order of their UTF-8 encodings).
pub open spec fn text_less(a: Seq<char>, b: Seq<char>) -> bool
    decreases a.len(),
{
    if b.len() == 0 {
        false
    } else if a.len() == 0 {
        true
    } else if a[0] != b[0] {
        (a[0] as u32) < (b[0] as u32)
    } else {
        text_less(a.drop_first(), b.drop_first())
    }
}

proof fn lemma_char_u32_injective(x: char, y: char)
    requires
        x != y,
    ensures
        (x as u32) != (y as u32),
{
}

proof fn lemma_text_less_irreflexive(a: Seq<char>)
    ensures
        !text_less(a, a),
    decreases a.len(),
{
    if a.len() > 0 {
        lemma_text_less_irreflexive(a.drop_first());
    }
}

proof fn lemma_text_less_asymmetric(a: Seq<char>, b: Seq<char>)
    requires
        text_less(a, b),
    ensures
        !text_less(b, a),
    decreases a.len(),
{
    if a.len() > 0 && b.len() > 0 && a[0] == b[0] {
        lemma_text_less_asymmetric(a.drop_first(), b.drop_first());
    }
}

proof fn lemma_text_less_transitive(a: Seq<char>, b: Seq<char>, c: Seq<char>)
    requires
        text_less(a, b),
        text_less(b, c),
    ensures
        text_less(a, c),
    decreases a.len(),
{
    if a.len() > 0 && b.len() > 0 && c.len() > 0 {
        if a[0] == b[0] && b[0] == c[0] {
            lemma_text_less_transitive(a.drop_first(), b.drop_first(), c.drop_first());
        } else if a[0] != b[0] && b[0] != c[0] && a[0] == c[0] {
            lemma_char_u32_injective(a[0], b[0]);
        }
    }
}

proof fn lemma_text_less_total(a: Seq<char>, b: Seq<char>)
    requires
        a != b,
    ensures
        text_less(a, b) || text_less(b, a),
    decreases a.len(),
{
    if a.len() == 0 {
        assert(b.len() != 0) by {
            if b.len() == 0 {
                assert(a =~= b);
            }
        }
    } else if b.len() == 0 {
    } else if a[0] != b[0] {
        lemma_char_u32_injective(a[0], b[0]);
    } else {
        assert(a.drop_first() != b.drop_first()) by {
            if a.drop_first() == b.drop_first() {
                assert(a =~= seq![a[0]] + a.drop_first());
                assert(b =~= seq![b[0]] + b.drop_first());
            }
        }
        lemma_text_less_total(a.drop_first(), b.drop_first());
    }
}

/// `y` is at most `x`, and `x` comes before `z`: then `y` comes before `z`.
proof fn lemma_text_less_below(x: Seq<char>, y: Seq<char>, z: Seq<char>)
    requires
        !text_less(x, y),
        text_less(x, z),
    ensures
        text_less(y, z),
{
    if x == y {
    } else {
        lemma_text_less_total(x, y);
        lemma_text_less_transitive(y, x, z);
    }
}

proof fn lemma_text_less_skip(a: Seq<char>, b: Seq<char>, i: int)
    requires
        0 <= i <= a.len(),
        i <= b.len(),
        forall|j: int| 0 <= j < i ==> a[j] == b[j],
    ensures
        text_less(a, b) == text_less(a.skip(i), b.skip(i)),
    decreases i,
{
    if i > 0 {
        assert(a.drop_first().skip(i - 1) =~= a.skip(i));
        assert(b.drop_first().skip(i - 1) =~= b.skip(i));
        lemma_text_less_skip(a.drop_first(), b.drop_first(), i - 1);
    } else {
        assert(a.skip(0) =~= a);
        assert(b.skip(0) =~= b);
    }
}

/// Does `a` come before `b` as Rust compares strings?
pub fn text_is_less(a: &str, b: &str) -> (r: bool)
    ensures
        r == text_less(a@, b@),
{
    let n = a.unicode_len();
    let m = b.unicode_len();
    let mut i: usize = 0;
    while i < n && i < m
        invariant
            n == a@.len(),
            m == b@.len(),
            i <= n,
            i <= m,
            forall|j: int| 0 <= j < i ==> a@[j] == b@[j],
        decreases n - i,
    {
        let x = a.get_char(i);
        let y = b.get_char(i);
        if x != y {
            proof {
                lemma_text_less_skip(a@, b@, i as int);
                assert(a@.skip(i as int)[0] == x);
                assert(b@.skip(i as int)[0] == y);
            }
            return (x as u32) < (y as u32);
        }
        i = i + 1;
    }
    proof {
        lemma_text_less_skip(a@, b@, i as int);
    }
    i < m
}

/// A snapshot of the table: its key, size in bytes, and modification date.
pub type SnapshotItem = (String, u64, String);

/// The snapshots are ordered by key, greatest first.
pub open spec fn keys_descending(s: Seq<SnapshotItem>) -> bool {
    forall|i: int, j: int| 0 <= i < j < s.len() ==> !text_less(#[trigger] s[i].0@, #[trigger] s[j].0@)
}

/// Does a snapshot have key `k`?
pub open spec fn has_key(k: Seq<char>) -> spec_fn(SnapshotItem) -> bool {
    |x: SnapshotItem| x.0@ == k
}

/// The snapshots of `s` with key `k`, in their order in `s`.
pub open spec fn same_key(s: Seq<SnapshotItem>, k: Seq<char>) -> Seq<SnapshotItem> {
    s.filter(has_key(k))
}

/// `r` is `s` sorted by a stable sort on the key, greatest first.
pub open spec fn stable_keys_descending(r: Seq<SnapshotItem>, s: Seq<SnapshotItem>) -> bool {
    &&& keys_descending(r)
    &&& forall|k: Seq<char>| #[trigger] same_key(r, k) == same_key(s, k)
}

proof fn lemma_same_key_insert(r: Seq<SnapshotItem>, p: int, m: SnapshotItem, k: Seq<char>)
    requires
        0 <= p <= r.len(),
        forall|q: int| p <= q < r.len() ==> text_less(#[trigger] r[q].0@, m.0@),
    ensures
        same_key(r.insert(p, m), k) == (if m.0@ == k {
            same_key(r, k).push(m)
        } else {
            same_key(r, k)
        }),
{
    let a = r.take(p);
    let b = r.skip(p);
    let pred = has_key(k);
    assert(r =~= a + b);
    assert(r.insert(p, m) =~= (a + seq![m]) + b);
    Seq::filter_distributes_over_add(a + seq![m], b, pred);
    Seq::filter_distributes_over_add(a, seq![m], pred);
    Seq::filter_distributes_over_add(a, b, pred);
    reveal_with_fuel(Seq::filter, 2);
    assert(seq![m].drop_last() =~= Seq::<SnapshotItem>::empty());
    if m.0@ == k {
        assert(b.all(|x: SnapshotItem| !pred(x))) by {
            assert forall|q: int| 0 <= q < b.len() implies !pred(#[trigger] b[q]) by {
                assert(b[q] == r[p + q]);
                lemma_text_less_irreflexive(m.0@);
            }
        }
        b.lemma_all_neg_filter_empty(pred);
        assert(b.filter(pred) =~= Seq::<SnapshotItem>::empty());
        assert(same_key(r, k) =~= a.filter(pred));
    }
}

/// Sort the snapshots by key, greatest first, keeping the order of
/// snapshots with equal keys (`items.sort_by(|a, b| b.0.cmp(&a.0))`).
pub fn sort_by_key_descending(items: Vec<SnapshotItem>) -> (r: Vec<SnapshotItem>)
    ensures
        stable_keys_descending(r@, items@),
{
    let mut r: Vec<SnapshotItem> = Vec::new();
    let n = items.len();
    let mut i: usize = 0;
    while i < n
        invariant
            n == items.len(),
            i <= n,
            keys_descending(r@),
            forall|k: Seq<char>| #[trigger] same_key(r@, k) == same_key(items@.take(i as int), k),
        decreases n - i,
    {
        let m = (items[i].0.clone(), items[i].1, items[i].2.clone());
        assert(m == items@[i as int]);
        let mut p: usize = 0;
        while p < r.len() && !text_is_less(r[p].0.as_str(), m.0.as_str())
            invariant
                p <= r.len(),
                forall|q: int| 0 <= q < p ==> !text_less(#[trigger] r@[q].0@, m.0@),
            decreases r.len() - p,
        {
            p = p + 1;
        }
        let ghost before = r@;
        proof {
            assert forall|q: int| p <= q < before.len() implies text_less(#[trigger] before[q].0@, m.0@) by {
                if q > p {
                    lemma_text_less_below(before[p as int].0@, before[q].0@, m.0@);
                }
            }
        }
        r.insert(p, m);
        proof {
            assert(items@.take(i + 1) =~= items@.take(i as int).push(m));
            assert forall|k: Seq<char>| #[trigger] same_key(r@, k) == same_key(items@.take(i + 1), k) by {
                lemma_same_key_insert(before, p as int, m, k);
                items@.take(i as int).lemma_filter_push(m, has_key(k));
            }
            assert forall|a: int, b: int| 0 <= a < b < r@.len() implies !text_less(
                #[trigger] r@[a].0@,
                #[trigger] r@[b].0@,
            ) by {
                if a < p && b == p {
                } else if a == p && b > p {
                    assert(r@[b] == before[b - 1]);
                    lemma_text_less_asymmetric(before[b - 1].0@, m.0@);
                } else if a < p && b > p {
                    assert(r@[b] == before[b - 1]);
                } else if b < p {
                } else {
                    assert(r@[b] == before[b - 1]);
                    assert(r@[a] == before[a - 1]);
                }
            }
        }
        i = i + 1;
    }
    assert(items@.take(n as int) =~= items@);
    r
}

/// The snapshot table: its snapshots, the selected one, and whether help
/// and the restore confirmation are shown.
#[derive(Debug)]
pub struct SnapshotTable {
    pub items: Vec<SnapshotItem>,
    pub state: usize,
    pub show_help: bool,
    pub show_confirm: bool,
}

impl SnapshotTable {
    /// The selection points into the list whenever the list is non-empty.
    pub open spec fn wf(&self) -> bool {
        self.items.len() == 0 || self.state < self.items.len()
    }

    /// An empty table.
    pub fn new() -> (r: Self)
        ensures
            r.items@.len() == 0,
            r.state == 0,
            !r.show_help,
            !r.show_confirm,
    {
        SnapshotTable { items: Vec::new(), state: 0, show_help: false, show_confirm: false }
    }

    /// Select the next snapshot, wrapping around at the end.
    pub fn next(&mut self)
        requires
            old(self).wf(),
        ensures
            final(self).items == old(self).items,
            final(self).show_help == old(self).show_help,
            final(self).show_confirm == old(self).show_confirm,
            old(self).items.len() == 0 ==> final(self).state == old(self).state,
            old(self).items.len() > 0 ==> final(self).state == (old(self).state + 1) % (
            old(self).items.len() as int),
            final(self).wf(),
    {
        if self.items.len() > 0 {
            self.state = (self.state + 1) % self.items.len();
        }
    }

    /// Select the previous snapshot, wrapping around at the start.
    pub fn prev(&mut self)
        requires
            old(self).wf(),
        ensures
            final(self).items == old(self).items,
            final(self).show_help == old(self).show_help,
            final(self).show_confirm == old(self).show_confirm,
            old(self).items.len() == 0 ==> final(self).state == old(self).state,
            old(self).items.len() > 0 ==> final(self).state == (if old(self).state == 0 {
                old(self).items.len() - 1
            } else {
                old(self).state - 1
            }),
            final(self).wf(),
    {
        if self.items.len() > 0 {
            if self.state == 0 {
                self.state = self.items.len() - 1;
            } else {
                self.state = self.state - 1;
            }
        }
    }

    /// Handle a key: `q` quits (the result is true), `h` toggles help, the
    /// arrows move the selection, Enter asks to confirm a restore when there
    /// is a snapshot.
    pub fn handle_key(&mut self, key: Key) -> (quit: bool)
        requires
            old(self).wf(),
        ensures
            final(self).wf(),
            final(self).items == old(self).items,
            quit == (key == Key::Char('q')),
            key == Key::Char('h') ==> final(self).show_help == !old(self).show_help && final(self).state
                == old(self).state && final(self).show_confirm == old(self).show_confirm,
            key == Key::Enter ==> final(self).show_confirm == (old(self).show_confirm || old(self).items.len()
                > 0) && final(self).state == old(self).state && final(self).show_help == old(self).show_help,
            key == Key::Down ==> final(self).state == (if old(self).items.len() == 0 {
                old(self).state as int
            } else {
                (old(self).state + 1) % (old(self).items.len() as int)
            }) && final(self).show_help == old(self).show_help && final(self).show_confirm == old(self).show_confirm,
            key == Key::Up ==> final(self).state == (if old(self).items.len() == 0 {
                old(self).state as int
            } else if old(self).state == 0 {
                old(self).items.len() - 1
            } else {
                old(self).state - 1
            }) && final(self).show_help == old(self).show_help && final(self).show_confirm == old(self).show_confirm,
            !(key == Key::Char('h') || key == Key::Enter || key == Key::Down || key == Key::Up) ==> {
                &&& final(self).state == old(self).state
                &&& final(self).show_help == old(self).show_help
                &&& final(self).show_confirm == old(self).show_confirm
            },
    {
        match key {
            Key::Char('q') => true,
            Key::Char('h') => {
                self.show_help = !self.show_help;
                false
            },
            Key::Down => {
                self.next();
                false
            },
            Key::Up => {
                self.prev();
                false
            },
            Key::Enter => {
                if self.items.len() > 0 {
                    self.show_confirm = true;
                }
                false
            },
            _ => false,
        }
    }
}

/// Moving down then up returns to the same snapshot, and so does up then down.
pub proof fn law_table_prev_undoes_next(state: usize, n: usize)
    requires
        state < n,
    ensures
        ({
            let down = ((state + 1) % (n as int)) as usize;
            let up = if state == 0 {
                (n - 1) as usize
            } else {
                (state - 1) as usize
            };
            &&& (if down == 0 {
                n - 1
            } else {
                down - 1
            }) == state
            &&& (up + 1) % (n as int) == state
        }),
{
    if state + 1 == n {
        vstd::arithmetic::div_mod::lemma_mod_self_0(n as int);
    } else {
        vstd::arithmetic::div_mod::lemma_small_mod((state + 1) as nat, n as nat);
    }
    if state == 0 {
        vstd::arithmetic::div_mod::lemma_mod_self_0(n as int);
    } else {
        vstd::arithmetic::div_mod::lemma_small_mod(state as nat, n as nat);
    }
}

/// A rectangle of the terminal: its top-left corner and size, in cells.
#[derive(Clone, Copy, Debug, PartialEq, Eq, Structural)]
pub struct Area {
    pub x: u16,
    pub y: u16,
    pub width: u16,
    pub height: u16,
}

/// A rectangle `percent_x`% as wide and `percent_y`% as high as `r`
/// (rounded down), centred in it (offsets rounded down). The sizes must
/// fit in 16 bits and not exceed those of `r`.
pub fn centered_rect(percent_x: u16, percent_y: u16, r: Area) -> (c: Area)
    requires
        r.width * percent_x <= u16::MAX,
        r.height * percent_y <= u16::MAX,
        r.width * percent_x / 100 <= r.width,
        r.height * percent_y / 100 <= r.height,
        r.x + (r.width - r.width * percent_x / 100) / 2 <= u16::MAX,
        r.y + (r.height - r.height * percent_y / 100) / 2 <= u16::MAX,
    ensures
        c.width == r.width * percent_x / 100,
        c.height == r.height * percent_y / 100,
        c.x == r.x + (r.width - c.width) / 2,
        c.y == r.y + (r.height - c.height) / 2,
{
    let pw = r.width * percent_x / 100;
    let ph = r.height * percent_y / 100;
    Area { x: r.x + (r.width - pw) / 2, y: r.y + (r.height - ph) / 2, width: pw, height: ph }
}

/// Strings compare as Rust compares them: at the first position where they
/// differ, the smaller character by code point comes first.
pub proof fn law_text_less_first_difference(a: Seq<char>, b: Seq<char>, k: int)
    requires
        0 <= k < a.len(),
        k < b.len(),
        a.subrange(0, k) == b.subrange(0, k),
        a[k] != b[k],
    ensures
        text_less(a, b) == ((a[k] as u32) < (b[k] as u32)),
{
    assert forall|j: int| 0 <= j < k implies a[j] == b[j] by {
        assert(a[j] == a.subrange(0, k)[j]);
        assert(b[j] == b.subrange(0, k)[j]);
    }
    lemma_text_less_skip(a, b, k);
}

/// A proper prefix comes first, and no string comes before its own prefix.
pub proof fn law_text_less_prefix(a: Seq<char>, b: Seq<char>)
    requires
        a.len() <= b.len(),
        b.subrange(0, a.len() as int) == a,
    ensures
        text_less(a, b) == (a.len() < b.len()),
        !text_less(b, a),
{
    assert forall|j: int| 0 <= j < a.len() implies a[j] == b[j] by {
        assert(b.subrange(0, a.len() as int)[j] == b[j]);
    }
    lemma_text_less_skip(a, b, a.len() as int);
    lemma_text_less_skip(b, a, a.len() as int);
}

/// On single characters the order is that of code points.
pub proof fn law_text_less_single_chars(x: char, y: char)
    ensures
        text_less(seq![x], seq![y]) == ((x as u32) < (y as u32)),
{
    if x == y {
        lemma_text_less_irreflexive(seq![x]);
    } else {
        law_text_less_first_difference(seq![x], seq![y], 0);
    }
}

/// After sorting by key, greatest first, no key comes before a later one's:
/// at their first difference the earlier key has the larger character, or
/// the later key is a prefix of it.
pub proof fn law_sorted_keys_descending(r: Seq<SnapshotItem>, i: int, j: int, k: int)
    requires
        keys_descending(r),
        0 <= i < j < r.len(),
        0 <= k < r[i].0@.len(),
        k < r[j].0@.len(),
        r[i].0@.subrange(0, k) == r[j].0@.subrange(0, k),
        r[i].0@[k] != r[j].0@[k],
    ensures
        (r[i].0@[k] as u32) > (r[j].0@[k] as u32),
{
    law_text_less_first_difference(r[i].0@, r[j].0@, k);
    law_text_less_first_difference(r[j].0@, r[i].0@, k);
    lemma_char_u32_injective(r[i].0@[k], r[j].0@[k]);
    assert(!text_less(r[i].0@, r[j].0@));
}

} // verus!
