//! Accordion disclosure logic.
//!
//! An accordion is either single-select (at most one item open, optionally
//! collapsible back to none) or multi-select (any subset of items open).
//! Items are identified by string keys; the single-select "nothing open"
//! state is the empty key.

use vstd::prelude::*;

use crate::control::StateCell;
use crate::text::cn_spec;
use crate::text::compose2;
use crate::text::opt_view;
use crate::text::str_eq;

verus! {

#[derive(Clone, Copy, Debug, PartialEq, Eq, Structural)]
pub enum AccordionType {
    Single { collapsible: bool },
    Multiple,
}

#[derive(Clone, Copy, Debug, PartialEq, Eq, Structural)]
pub enum AccordionOrientation {
    Vertical,
    Horizontal,
}

impl AccordionOrientation {
    pub open spec fn spec_as_str(self) -> Seq<char> {
        match self {
            AccordionOrientation::Vertical => "vertical"@,
            AccordionOrientation::Horizontal => "horizontal"@,
        }
    }

    /// The `data-orientation` attribute value.
    pub fn as_str(&self) -> (r: &'static str)
        ensures
            r@ == self.spec_as_str(),
    {
        match self {
            AccordionOrientation::Vertical => "vertical",
            AccordionOrientation::Horizontal => "horizontal",
        }
    }
}

/// The single-select value after toggling `key`: toggling the open item
/// closes it when collapsible and is a no-op otherwise; toggling any other
/// item opens it.
pub open spec fn single_next(current: Seq<char>, key: Seq<char>, collapsible: bool) -> Seq<char> {
    if current == key {
        if collapsible {
            Seq::<char>::empty()
        } else {
            current
        }
    } else {
        key
    }
}

/// The outcome of a single-select toggle: the value the accordion asks to
/// adopt, and whether the cell adopted it itself (uncontrolled mode).
pub struct SingleChange {
    pub applied: bool,
    pub next: String,
}

/// Single-select accordion state: the key of the open item, or the empty
/// key when none is open.
pub struct SingleSelect {
    collapsible: bool,
    cell: StateCell<String>,
}

impl SingleSelect {
    pub closed spec fn collapsible(self) -> bool {
        self.collapsible
    }

    pub closed spec fn is_internal(self) -> bool {
        self.cell.is_internal()
    }

    /// The key of the currently open item.
    pub closed spec fn value_view(self) -> Seq<char> {
        self.cell.value()@
    }

    /// A controlled cell around `controlled`, or an uncontrolled cell
    /// around `default_value` (absent: nothing open).
    pub fn new(controlled: Option<String>, default_value: Option<String>, collapsible: bool) -> (r:
        Self)
        ensures
            r.collapsible() == collapsible,
            r.is_internal() == (controlled is None),
            r.value_view() == match controlled {
                Option::Some(v) => v@,
                Option::None => match default_value {
                    Option::Some(d) => d@,
                    Option::None => Seq::<char>::empty(),
                },
            },
    {
        let default = match default_value {
            Option::Some(d) => d,
            Option::None => String::new(),
        };
        SingleSelect { collapsible, cell: StateCell::new(controlled, default) }
    }

    /// Whether the item with key `key` is open.
    pub fn is_open(&self, key: &str) -> (r: bool)
        ensures
            r == (self.value_view() == key@),
    {
        str_eq(self.cell.get().as_str(), key)
    }

    /// Toggles the item with key `key`.
    ///
    /// The requested value is always reported; an uncontrolled accordion
    /// adopts it, a controlled one leaves that to the application.
    pub fn toggle(&mut self, key: &str) -> (r: SingleChange)
        ensures
            r.next@ == single_next(old(self).value_view(), key@, old(self).collapsible()),
            r.applied == old(self).is_internal(),
            final(self).collapsible() == old(self).collapsible(),
            final(self).is_internal() == old(self).is_internal(),
            final(self).value_view() == if r.applied {
                r.next@
            } else {
                old(self).value_view()
            },
    {
        let same = str_eq(self.cell.get().as_str(), key);
        let next: String = if same {
            if self.collapsible {
                String::new()
            } else {
                self.cell.get().clone()
            }
        } else {
            key.to_owned()
        };
        let reported = next.clone();
        let applied = self.cell.request(next);
        SingleChange { applied, next: reported }
    }
}

/// Folds a sequence of toggles of the same key, starting from `current`.
pub open spec fn single_fold_same(current: Seq<char>, key: Seq<char>, n: nat, collapsible: bool) -> Seq<
    char,
>
    decreases n,
{
    if n == 0 {
        current
    } else {
        single_next(single_fold_same(current, key, (n - 1) as nat, collapsible), key, collapsible)
    }
}

/// Law: on a collapsible single-select accordion whose open item is not
/// `key`, toggling `key` twice in a row ends with nothing open (the first
/// toggle opens it, the second collapses it), and after any odd number of
/// consecutive toggles of `key` the open item is `key`, while after any
/// positive even number nothing is open.
pub proof fn lemma_single_collapsible_toggle_parity(
    current: Seq<char>,
    key: Seq<char>,
    n: nat,
)
    requires
        current != key,
    ensures
        single_fold_same(current, key, 2, true) == Seq::<char>::empty(),
        n % 2 == 1 ==> single_fold_same(current, key, n, true) == key,
        n % 2 == 0 && n > 0 ==> single_fold_same(current, key, n, true) == Seq::<char>::empty(),
    decreases n,
{
    assert(single_fold_same(current, key, 0, true) == current);
    assert(single_fold_same(current, key, 1, true) == single_next(current, key, true));
    assert(single_fold_same(current, key, 2, true) == single_next(
        single_fold_same(current, key, 1, true),
        key,
        true,
    ));
    assert(single_fold_same(current, key, 1, true) == key);
    assert(single_fold_same(current, key, 2, true) == Seq::<char>::empty());
    if n > 1 {
        lemma_single_collapsible_toggle_parity(current, key, (n - 1) as nat);
        let prev = single_fold_same(current, key, (n - 1) as nat, true);
        assert(single_fold_same(current, key, n, true) == single_next(prev, key, true));
        if n % 2 == 1 {
            if key.len() == 0 {
                assert(prev =~= key);
                assert(single_next(prev, key, true) =~= key);
            } else {
                assert(prev != key);
            }
        }
    }
}

/// The multi-select open set after toggling `key`: present keys are
/// removed, absent keys are inserted.
pub open spec fn multi_next(current: Seq<Seq<char>>, key: Seq<char>) -> Seq<Seq<char>> {
    if current.contains(key) {
        current.remove_value(key)
    } else {
        current.push(key)
    }
}

/// Membership after a multi-select toggle: the toggled key flips, every
/// other key is untouched, and keys stay pairwise distinct.
pub proof fn lemma_multi_next_membership(s: Seq<Seq<char>>, key: Seq<char>)
    requires
        s.no_duplicates(),
    ensures
        multi_next(s, key).no_duplicates(),
        multi_next(s, key).contains(key) == !s.contains(key),
        forall|x: Seq<char>| x != key ==> multi_next(s, key).contains(x) == s.contains(x),
{
    if s.contains(key) {
        s.index_of_first_ensures(key);
        let i = s.index_of_first(key)->Some_0;
        let t = s.remove(i);
        s.remove_ensures(i);
        assert forall|a: int, b: int| 0 <= a < b < t.len() implies t[a] != t[b] by {
            let sa: int = if a < i {
                a
            } else {
                a + 1
            };
            let sb: int = if b < i {
                b
            } else {
                b + 1
            };
            assert(t[a] == s[sa]);
            assert(t[b] == s[sb]);
        }
        assert(t.no_duplicates());
        assert forall|j: int| 0 <= j < t.len() implies t[j] != key by {
            let sj: int = if j < i {
                j
            } else {
                j + 1
            };
            assert(t[j] == s[sj]);
            assert(s[i] == key);
        }
        assert(!t.contains(key));
        assert forall|x: Seq<char>| x != key implies t.contains(x) == s.contains(x) by {
            if t.contains(x) {
                let j = choose|j: int| 0 <= j < t.len() && t[j] == x;
                let sj: int = if j < i {
                    j
                } else {
                    j + 1
                };
                assert(s[sj] == x);
                assert(s.contains(x));
            }
            if s.contains(x) {
                let j = choose|j: int| 0 <= j < s.len() && s[j] == x;
                assert(j != i);
                let tj: int = if j < i {
                    j
                } else {
                    j - 1
                };
                assert(t[tj] == x);
                assert(t.contains(x));
            }
        }
    } else {
        let t = s.push(key);
        assert(t[t.len() - 1] == key);
        assert(t.contains(key));
        assert forall|a: int, b: int| 0 <= a < b < t.len() implies t[a] != t[b] by {
            if b < t.len() - 1 {
                assert(t[a] == s[a] && t[b] == s[b]);
            } else {
                assert(t[b] == key);
                assert(t[a] == s[a]);
                assert(s.contains(s[a]));
            }
        }
        assert forall|x: Seq<char>| x != key implies t.contains(x) == s.contains(x) by {
            if t.contains(x) {
                let j = choose|j: int| 0 <= j < t.len() && t[j] == x;
                assert(j < t.len() - 1);
                assert(s[j] == x);
                assert(s.contains(x));
            }
            if s.contains(x) {
                let j = choose|j: int| 0 <= j < s.len() && s[j] == x;
                assert(t[j] == x);
                assert(t.contains(x));
            }
        }
    }
}

/// The keys with later duplicates dropped: each key keeps its first
/// occurrence only.
pub open spec fn dedup_keys(s: Seq<Seq<char>>) -> Seq<Seq<char>>
    decreases s.len(),
{
    if s.len() == 0 {
        Seq::<Seq<char>>::empty()
    } else {
        let rest = dedup_keys(s.drop_last());
        if rest.contains(s.last()) {
            rest
        } else {
            rest.push(s.last())
        }
    }
}

/// Deduplication keeps membership and yields pairwise-distinct keys.
pub proof fn lemma_dedup_keys(s: Seq<Seq<char>>)
    ensures
        dedup_keys(s).no_duplicates(),
        forall|x: Seq<char>| dedup_keys(s).contains(x) == s.contains(x),
    decreases s.len(),
{
    if s.len() == 0 {
        assert(forall|x: Seq<char>| !dedup_keys(s).contains(x) && !s.contains(x));
    } else {
        lemma_dedup_keys(s.drop_last());
        let rest = dedup_keys(s.drop_last());
        let d = dedup_keys(s);
        if rest.contains(s.last()) {
            assert(d == rest);
            assert forall|x: Seq<char>| d.contains(x) == s.contains(x) by {
                if s.contains(x) {
                    let j = choose|j: int| 0 <= j < s.len() && s[j] == x;
                    if j < s.len() - 1 {
                        assert(s.drop_last()[j] == x);
                        assert(s.drop_last().contains(x));
                    } else {
                        assert(x == s.last());
                    }
                }
                if d.contains(x) {
                    assert(s.drop_last().contains(x));
                    let j = choose|j: int| 0 <= j < s.drop_last().len() && s.drop_last()[j] == x;
                    assert(s[j] == x);
                    assert(s.contains(x));
                }
            }
        } else {
            assert(d == rest.push(s.last()));
            assert forall|a: int, b: int| 0 <= a < b < d.len() implies d[a] != d[b] by {
                if b < d.len() - 1 {
                    assert(d[a] == rest[a] && d[b] == rest[b]);
                } else {
                    assert(d[b] == s.last());
                    assert(d[a] == rest[a]);
                    assert(rest.contains(rest[a]));
                }
            }
            assert forall|x: Seq<char>| d.contains(x) == s.contains(x) by {
                if s.contains(x) {
                    let j = choose|j: int| 0 <= j < s.len() && s[j] == x;
                    if j < s.len() - 1 {
                        assert(s.drop_last()[j] == x);
                        assert(s.drop_last().contains(x));
                        let k = choose|k: int| 0 <= k < rest.len() && rest[k] == x;
                        assert(d[k] == x);
                        assert(d.contains(x));
                    } else {
                        assert(d[d.len() - 1] == x);
                        assert(d.contains(x));
                    }
                }
                if d.contains(x) {
                    let j = choose|j: int| 0 <= j < d.len() && d[j] == x;
                    if j < d.len() - 1 {
                        assert(rest[j] == x);
                        assert(rest.contains(x));
                        assert(s.drop_last().contains(x));
                        let k = choose|k: int| 0 <= k < s.drop_last().len() && s.drop_last()[k]
                            == x;
                        assert(s[k] == x);
                        assert(s.contains(x));
                    } else {
                        assert(x == s.last());
                        assert(s[s.len() - 1] == x);
                        assert(s.contains(x));
                    }
                }
            }
        }
    }
}

/// The outcome of a multi-select toggle: the key list the accordion asks
/// to adopt, and whether the cell adopted it itself (uncontrolled mode).
pub struct MultiChange {
    pub applied: bool,
    pub next: Vec<String>,
}

/// Multi-select accordion state: the set of keys of the open items, held
/// as a duplicate-free list.
pub struct MultiSelect {
    cell: StateCell<Vec<String>>,
}

fn find_key(keys: &Vec<String>, key: &str) -> (r: Option<usize>)
    ensures
        match r {
            Option::Some(i) => i < keys.deep_view().len() && keys.deep_view()[i as int] == key@
                && (forall|j: int| 0 <= j < i ==> keys.deep_view()[j] != key@),
            Option::None => !keys.deep_view().contains(key@),
        },
{
    let ghost kv = keys.deep_view();
    let mut i: usize = 0;
    while i < keys.len()
        invariant
            0 <= i <= keys.len(),
            kv == keys.deep_view(),
            kv.len() == keys@.len(),
            forall|k: int| 0 <= k < keys@.len() ==> kv[k] == #[trigger] keys@[k].deep_view(),
            forall|j: int| 0 <= j < i ==> kv[j] != key@,
        decreases keys.len() - i,
    {
        if str_eq(keys[i].as_str(), key) {
            return Some(i);
        }
        i = i + 1;
    }
    proof {
        if kv.contains(key@) {
            let j = choose|j: int| 0 <= j < kv.len() && kv[j] == key@;
            assert(kv[j] != key@);
        }
    }
    None
}

fn clone_keys(keys: &Vec<String>) -> (r: Vec<String>)
    ensures
        r.deep_view() == keys.deep_view(),
{
    let ghost kv = keys.deep_view();
    let mut out: Vec<String> = Vec::new();
    let mut i: usize = 0;
    while i < keys.len()
        invariant
            0 <= i <= keys.len(),
            kv == keys.deep_view(),
            kv.len() == keys@.len(),
            forall|k: int| 0 <= k < keys@.len() ==> kv[k] == #[trigger] keys@[k].deep_view(),
            out.deep_view() =~= kv.take(i as int),
        decreases keys.len() - i,
    {
        out.push(keys[i].clone());
        proof {
            assert(out.deep_view() =~= kv.take(i as int).push(kv[i as int]));
            assert(kv.take(i as int).push(kv[i as int]) =~= kv.take(i + 1));
        }
        i = i + 1;
    }
    proof {
        assert(kv.take(keys@.len() as int) =~= kv);
    }
    out
}

fn dedup_keys_exec(keys: Vec<String>) -> (r: Vec<String>)
    ensures
        r.deep_view() == dedup_keys(keys.deep_view()),
{
    let ghost kv = keys.deep_view();
    let mut out: Vec<String> = Vec::new();
    let mut i: usize = 0;
    while i < keys.len()
        invariant
            0 <= i <= keys.len(),
            kv == keys.deep_view(),
            kv.len() == keys@.len(),
            forall|k: int| 0 <= k < keys@.len() ==> kv[k] == #[trigger] keys@[k].deep_view(),
            out.deep_view() == dedup_keys(kv.take(i as int)),
        decreases keys.len() - i,
    {
        let ghost prev = out.deep_view();
        let present = find_key(&out, keys[i].as_str());
        if present.is_none() {
            out.push(keys[i].clone());
        }
        proof {
            assert(kv.take(i + 1).drop_last() =~= kv.take(i as int));
            assert(kv.take(i + 1).last() == kv[i as int]);
            if present is Some {
                assert(prev.contains(kv[i as int]));
                assert(out.deep_view() == prev);
            } else {
                assert(!prev.contains(kv[i as int]));
                assert(out.deep_view() =~= prev.push(kv[i as int]));
            }
        }
        i = i + 1;
    }
    proof {
        assert(kv.take(keys@.len() as int) =~= kv);
    }
    out
}

impl MultiSelect {
    pub closed spec fn is_internal(self) -> bool {
        self.cell.is_internal()
    }

    /// The keys of the currently open items.
    pub closed spec fn values_view(self) -> Seq<Seq<char>> {
        self.cell.value().deep_view()
    }

    /// The open keys are pairwise distinct.
    pub open spec fn wf(self) -> bool {
        self.values_view().no_duplicates()
    }

    /// A controlled cell around `controlled`, or an uncontrolled cell
    /// around `default_values` (absent: nothing open). Duplicate keys in
    /// the supplied list are dropped: the open items form a set.
    pub fn new(controlled: Option<Vec<String>>, default_values: Option<Vec<String>>) -> (r: Self)
        ensures
            r.is_internal() == (controlled is None),
            r.values_view() == dedup_keys(
                match controlled {
                    Option::Some(v) => v.deep_view(),
                    Option::None => match default_values {
                        Option::Some(d) => d.deep_view(),
                        Option::None => Seq::<Seq<char>>::empty(),
                    },
                },
            ),
            r.wf(),
    {
        let ghost src_view = match &controlled {
            Option::Some(v) => v.deep_view(),
            Option::None => match &default_values {
                Option::Some(d) => d.deep_view(),
                Option::None => Seq::<Seq<char>>::empty(),
            },
        };
        let initial = match controlled {
            Option::Some(v) => Some(dedup_keys_exec(v)),
            Option::None => None,
        };
        let default = match default_values {
            Option::Some(d) => dedup_keys_exec(d),
            Option::None => Vec::new(),
        };
        proof {
            assert(dedup_keys(Seq::<Seq<char>>::empty()) =~= Seq::<Seq<char>>::empty());
            lemma_dedup_keys(src_view);
        }
        MultiSelect { cell: StateCell::new(initial, default) }
    }

    /// Whether the item with key `key` is open.
    pub fn is_open(&self, key: &str) -> (r: bool)
        ensures
            r == self.values_view().contains(key@),
    {
        let found = find_key(self.cell.get(), key);
        proof {
            if found is Some {
                let i = found->Some_0;
                assert(self.values_view()[i as int] == key@);
            }
        }
        found.is_some()
    }

    /// Toggles the item with key `key`: removes it when open, inserts it
    /// when closed.
    ///
    /// The requested key list is always reported; an uncontrolled
    /// accordion adopts it, a controlled one leaves that to the
    /// application.
    pub fn toggle(&mut self, key: &str) -> (r: MultiChange)
        requires
            old(self).wf(),
        ensures
            r.next.deep_view() == multi_next(old(self).values_view(), key@),
            r.next.deep_view().no_duplicates(),
            r.next.deep_view().contains(key@) == !old(self).values_view().contains(key@),
            forall|x: Seq<char>|
                x != key@ ==> r.next.deep_view().contains(x) == old(self).values_view().contains(x),
            r.applied == old(self).is_internal(),
            final(self).is_internal() == old(self).is_internal(),
            final(self).wf(),
            final(self).values_view() == if r.applied {
                r.next.deep_view()
            } else {
                old(self).values_view()
            },
    {
        let ghost sv = self.values_view();
        let pos = find_key(self.cell.get(), key);
        let mut next = clone_keys(self.cell.get());
        match pos {
            Option::Some(p) => {
                let ghost before = next.deep_view();
                next.remove(p);
                proof {
                    assert(sv[p as int] == key@);
                    assert(sv.contains(key@));
                    sv.index_of_first_ensures(key@);
                    let i = sv.index_of_first(key@)->Some_0;
                    assert(!(p < i) && !(i < p));
                    assert(i == p);
                    assert forall|k: int| 0 <= k < next.deep_view().len() implies next.deep_view()[k]
                        == sv.remove(p as int)[k] by {
                        sv.remove_ensures(p as int);
                        assert(next@[k].deep_view() == before.remove(p as int)[k]);
                    }
                    assert(next.deep_view() =~= sv.remove(p as int));
                    assert(multi_next(sv, key@) == sv.remove(p as int));
                }
            },
            Option::None => {
                next.push(key.to_owned());
                proof {
                    assert(next.deep_view() =~= sv.push(key@));
                }
            },
        }
        proof {
            lemma_multi_next_membership(sv, key@);
        }
        let reported = clone_keys(&next);
        let applied = self.cell.request(next);
        MultiChange { applied, next: reported }
    }
}

/// Folds a sequence of toggles, starting from `current`.
pub open spec fn multi_fold(current: Seq<Seq<char>>, keys: Seq<Seq<char>>) -> Seq<Seq<char>>
    decreases keys.len(),
{
    if keys.len() == 0 {
        current
    } else {
        multi_next(multi_fold(current, keys.drop_last()), keys.last())
    }
}

/// How often `k` occurs in `keys`.
pub open spec fn toggle_count(keys: Seq<Seq<char>>, k: Seq<char>) -> nat
    decreases keys.len(),
{
    if keys.len() == 0 {
        0
    } else {
        toggle_count(keys.drop_last(), k) + if keys.last() == k {
            1nat
        } else {
            0nat
        }
    }
}

/// Law: after any sequence of multi-select toggles, a key is open exactly
/// when its initial membership differs from the parity of its toggle
/// count - the open set is the symmetric-difference fold of the toggled
/// keys.
pub proof fn lemma_multi_toggle_parity(current: Seq<Seq<char>>, keys: Seq<Seq<char>>, k: Seq<char>)
    requires
        current.no_duplicates(),
    ensures
        multi_fold(current, keys).no_duplicates(),
        multi_fold(current, keys).contains(k) == (current.contains(k) != (toggle_count(keys, k) % 2
            == 1)),
    decreases keys.len(),
{
    if keys.len() == 0 {
    } else {
        let rest = keys.drop_last();
        let last = keys.last();
        lemma_multi_toggle_parity(current, rest, k);
        lemma_multi_toggle_parity(current, rest, last);
        let prev = multi_fold(current, rest);
        lemma_multi_next_membership(prev, last);
        assert(multi_fold(current, keys) == multi_next(prev, last));
        if k == last {
            assert(toggle_count(keys, k) == toggle_count(rest, k) + 1);
        } else {
            assert(toggle_count(keys, k) == toggle_count(rest, k));
        }
    }
}

/// The outcome of an accordion toggle, by selection mode.
pub enum AccordionChange {
    Single(SingleChange),
    Multiple(MultiChange),
}

/// Shared accordion state, as provided to every item: the selection mode
/// with its open value or values, whether the whole accordion is disabled,
/// and its orientation.
pub struct AccordionState {
    kind: AccordionType,
    single: SingleSelect,
    multiple: MultiSelect,
    disabled: bool,
    orientation: AccordionOrientation,
}

impl AccordionState {
    pub closed spec fn kind(self) -> AccordionType {
        self.kind
    }

    pub closed spec fn single(self) -> SingleSelect {
        self.single
    }

    pub closed spec fn multiple(self) -> MultiSelect {
        self.multiple
    }

    pub closed spec fn disabled(self) -> bool {
        self.disabled
    }

    pub closed spec fn orientation(self) -> AccordionOrientation {
        self.orientation
    }

    pub open spec fn wf(self) -> bool {
        &&& self.multiple().wf()
        &&& (self.kind() matches AccordionType::Single { collapsible } ==> self.single().collapsible()
            == collapsible)
    }

    /// Whether the item with key `key` is open, in the active mode.
    pub open spec fn spec_is_open(self, key: Seq<char>) -> bool {
        match self.kind() {
            AccordionType::Single { .. } => self.single().value_view() == key,
            AccordionType::Multiple => self.multiple().values_view().contains(key),
        }
    }

    /// Builds the accordion state a root component provides to its items.
    /// Single mode reads the single-value inputs, multiple mode the
    /// multi-value inputs; the unused mode starts empty and uncontrolled.
    pub fn new(
        kind: AccordionType,
        default_value: Option<String>,
        default_values: Option<Vec<String>>,
        value: Option<String>,
        values: Option<Vec<String>>,
        disabled: bool,
        orientation: AccordionOrientation,
    ) -> (r: Self)
        ensures
            r.kind() == kind,
            r.disabled() == disabled,
            r.orientation() == orientation,
            r.wf(),
            kind matches AccordionType::Single { collapsible } ==> {
                &&& r.single().collapsible() == collapsible
                &&& r.single().is_internal() == (value is None)
                &&& r.single().value_view() == match value {
                    Option::Some(v) => v@,
                    Option::None => match default_value {
                        Option::Some(d) => d@,
                        Option::None => Seq::<char>::empty(),
                    },
                }
            },
            kind is Multiple ==> {
                &&& r.multiple().is_internal() == (values is None)
                &&& r.multiple().values_view() == dedup_keys(
                    match values {
                        Option::Some(v) => v.deep_view(),
                        Option::None => match default_values {
                            Option::Some(d) => d.deep_view(),
                            Option::None => Seq::<Seq<char>>::empty(),
                        },
                    },
                )
            },
    {
        match kind {
            AccordionType::Single { collapsible } => AccordionState {
                kind,
                single: SingleSelect::new(value, default_value, collapsible),
                multiple: MultiSelect::new(None, None),
                disabled,
                orientation,
            },
            AccordionType::Multiple => AccordionState {
                kind,
                single: SingleSelect::new(None, None, false),
                multiple: MultiSelect::new(values, default_values),
                disabled,
                orientation,
            },
        }
    }

    /// Whether the item with key `key` is open.
    pub fn is_open(&self, key: &str) -> (r: bool)
        ensures
            r == self.spec_is_open(key@),
    {
        match self.kind {
            AccordionType::Single { .. } => self.single.is_open(key),
            AccordionType::Multiple => self.multiple.is_open(key),
        }
    }

    /// Toggles the item with key `key` in the active mode.
    pub fn toggle(&mut self, key: &str) -> (r: AccordionChange)
        requires
            old(self).wf(),
        ensures
            final(self).kind() == old(self).kind(),
            final(self).disabled() == old(self).disabled(),
            final(self).orientation() == old(self).orientation(),
            final(self).wf(),
            final(self).single().is_internal() == old(self).single().is_internal(),
            final(self).single().collapsible() == old(self).single().collapsible(),
            final(self).multiple().is_internal() == old(self).multiple().is_internal(),
            old(self).kind() matches AccordionType::Single { collapsible } ==> {
                &&& r matches AccordionChange::Single(c)
                &&& c.next@ == single_next(old(self).single().value_view(), key@, collapsible)
                &&& c.applied == old(self).single().is_internal()
                &&& final(self).single().value_view() == if c.applied {
                    c.next@
                } else {
                    old(self).single().value_view()
                }
                &&& final(self).multiple() == old(self).multiple()
            },
            old(self).kind() is Multiple ==> {
                &&& r matches AccordionChange::Multiple(c)
                &&& c.next.deep_view() == multi_next(old(self).multiple().values_view(), key@)
                &&& c.applied == old(self).multiple().is_internal()
                &&& final(self).multiple().values_view() == if c.applied {
                    c.next.deep_view()
                } else {
                    old(self).multiple().values_view()
                }
                &&& final(self).single() == old(self).single()
            },
    {
        match self.kind {
            AccordionType::Single { .. } => AccordionChange::Single(self.single.toggle(key)),
            AccordionType::Multiple => AccordionChange::Multiple(self.multiple.toggle(key)),
        }
    }

    pub fn is_disabled(&self) -> (r: bool)
        ensures
            r == self.disabled(),
    {
        self.disabled
    }

    pub fn get_orientation(&self) -> (r: AccordionOrientation)
        ensures
            r == self.orientation(),
    {
        self.orientation
    }

    /// What an item trigger does on activation: a disabled accordion or a
    /// disabled item swallows the event, otherwise the item is toggled.
    pub fn trigger_activate(&mut self, key: &str, item_disabled: bool) -> (r: Option<
        AccordionChange,
    >)
        requires
            old(self).wf(),
        ensures
            final(self).wf(),
            (old(self).disabled() || item_disabled) ==> r is None && *final(self) == *old(self),
            final(self).kind() == old(self).kind(),
            final(self).disabled() == old(self).disabled(),
            final(self).orientation() == old(self).orientation(),
            final(self).single().is_internal() == old(self).single().is_internal(),
            final(self).single().collapsible() == old(self).single().collapsible(),
            final(self).multiple().is_internal() == old(self).multiple().is_internal(),
            !(old(self).disabled() || item_disabled) ==> ({
                &&& (old(self).kind() matches AccordionType::Single { collapsible } ==> {
                    &&& r matches Some(AccordionChange::Single(c))
                    &&& c.next@ == single_next(old(self).single().value_view(), key@, collapsible)
                    &&& c.applied == old(self).single().is_internal()
                    &&& final(self).single().value_view() == (if c.applied {
                        c.next@
                    } else {
                        old(self).single().value_view()
                    })
                    &&& final(self).multiple() == old(self).multiple()
                })
                &&& (old(self).kind() is Multiple ==> {
                    &&& r matches Some(AccordionChange::Multiple(c))
                    &&& c.next.deep_view() == multi_next(old(self).multiple().values_view(), key@)
                    &&& c.applied == old(self).multiple().is_internal()
                    &&& final(self).multiple().values_view() == (if c.applied {
                        c.next.deep_view()
                    } else {
                        old(self).multiple().values_view()
                    })
                    &&& final(self).single() == old(self).single()
                })
            }),
    {
        if self.disabled || item_disabled {
            None
        } else {
            Some(self.toggle(key))
        }
    }
}

pub const ACCORDION_ITEM_CLASS: &'static str = "border-b";

pub const ACCORDION_TRIGGER_CLASS: &'static str =
    "flex flex-1 items-center justify-between py-4 font-medium transition-all hover:underline [&[data-state=open]>svg]:rotate-180";

pub const ACCORDION_CONTENT_CLASS: &'static str =
    "overflow-hidden text-sm transition-all duration-300 ease-[cubic-bezier(0.87,0,0.13,1)]";

/// The class attribute of an accordion item.
pub fn accordion_item_class(class: Option<&str>) -> (r: String)
    ensures
        r@ == cn_spec(seq![Some(ACCORDION_ITEM_CLASS@), opt_view(class)]),
{
    compose2(ACCORDION_ITEM_CLASS, class)
}

/// The class attribute of an accordion trigger.
pub fn accordion_trigger_class(class: Option<&str>) -> (r: String)
    ensures
        r@ == cn_spec(seq![Some(ACCORDION_TRIGGER_CLASS@), opt_view(class)]),
{
    compose2(ACCORDION_TRIGGER_CLASS, class)
}

/// The class attribute of an accordion content region.
pub fn accordion_content_class(class: Option<&str>) -> (r: String)
    ensures
        r@ == cn_spec(seq![Some(ACCORDION_CONTENT_CLASS@), opt_view(class)]),
{
    compose2(ACCORDION_CONTENT_CLASS, class)
}

/// The inline style that reveals or hides an accordion content region.
pub fn accordion_content_style(open_state: bool) -> (r: &'static str)
    ensures
        r@ == if open_state {
            "max-height: 1000px; opacity: 1;"@
        } else {
            "max-height: 0; opacity: 0;"@
        },
{
    if open_state {
        "max-height: 1000px; opacity: 1;"
    } else {
        "max-height: 0; opacity: 0;"
    }
}

} // verus!
