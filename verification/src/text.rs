//! Class-name assembly and small string utilities.
//!
//! Styled elements build their `class` attribute from a base class list, a
//! variant class list, and an optional caller-supplied class. [`cn`] joins
//! such parts: absent and blank parts are dropped, the rest are trimmed and
//! joined with single spaces.

use vstd::prelude::*;

verus! {

/// The whitespace characters stripped from the ends of a class-name
/// part: the Unicode white-space set, as `str::trim` strips it.
pub open spec fn is_space_char(c: char) -> bool {
    ||| c == ' '
    ||| c == '\t'
    ||| c == '\n'
    ||| c == '\u{0B}'
    ||| c == '\u{0C}'
    ||| c == '\r'
    ||| c == '\u{85}'
    ||| c == '\u{A0}'
    ||| c == '\u{1680}'
    ||| ('\u{2000}' <= c && c <= '\u{200A}')
    ||| c == '\u{2028}'
    ||| c == '\u{2029}'
    ||| c == '\u{202F}'
    ||| c == '\u{205F}'
    ||| c == '\u{3000}'
}

/// `s` without its leading whitespace.
pub open spec fn trim_start_spec(s: Seq<char>) -> Seq<char>
    decreases s.len(),
{
    if s.len() > 0 && is_space_char(s[0]) {
        trim_start_spec(s.drop_first())
    } else {
        s
    }
}

/// `s` without its trailing whitespace.
pub open spec fn trim_end_spec(s: Seq<char>) -> Seq<char>
    decreases s.len(),
{
    if s.len() > 0 && is_space_char(s.last()) {
        trim_end_spec(s.drop_last())
    } else {
        s
    }
}

/// `s` without leading and trailing whitespace.
pub open spec fn trim_spec(s: Seq<char>) -> Seq<char> {
    trim_end_spec(trim_start_spec(s))
}

/// The parts that survive filtering: present parts whose trimmed text is
/// nonempty, each replaced by that trimmed text, in order.
pub open spec fn kept_parts(parts: Seq<Option<Seq<char>>>) -> Seq<Seq<char>>
    decreases parts.len(),
{
    if parts.len() == 0 {
        Seq::empty()
    } else {
        kept_parts(parts.drop_last()) + (match parts.last() {
            Option::None => Seq::<Seq<char>>::empty(),
            Option::Some(s) => if trim_spec(s).len() == 0 {
                Seq::<Seq<char>>::empty()
            } else {
                seq![trim_spec(s)]
            },
        })
    }
}

/// The items joined with a single space between neighbours.
pub open spec fn join_spaced(items: Seq<Seq<char>>) -> Seq<char>
    decreases items.len(),
{
    if items.len() == 0 {
        Seq::<char>::empty()
    } else if items.len() == 1 {
        items[0]
    } else {
        join_spaced(items.drop_last()) + seq![' '] + items.last()
    }
}

/// What [`cn`] returns for the given parts.
pub open spec fn cn_spec(parts: Seq<Option<Seq<char>>>) -> Seq<char> {
    join_spaced(kept_parts(parts))
}

fn is_space(c: char) -> (r: bool)
    ensures
        r == is_space_char(c),
{
    c == ' ' || c == '\t' || c == '\n' || c == '\u{0B}' || c == '\u{0C}' || c == '\r'
        || c == '\u{85}' || c == '\u{A0}' || c == '\u{1680}' || ('\u{2000}' <= c && c
        <= '\u{200A}') || c == '\u{2028}' || c == '\u{2029}' || c == '\u{202F}' || c
        == '\u{205F}' || c == '\u{3000}'
}

proof fn lemma_trim_start_skip(s: Seq<char>, i: int)
    requires
        0 <= i <= s.len(),
        forall|k: int| 0 <= k < i ==> is_space_char(s[k]),
    ensures
        trim_start_spec(s) == trim_start_spec(s.skip(i)),
    decreases i,
{
    if i > 0 {
        assert(is_space_char(s[0]));
        assert(s.drop_first() =~= s.skip(1));
        lemma_trim_start_skip(s.skip(1), i - 1);
        assert(s.skip(1).skip(i - 1) =~= s.skip(i));
    } else {
        assert(s.skip(0) =~= s);
    }
}

proof fn lemma_trim_end_take(s: Seq<char>, j: int)
    requires
        0 <= j <= s.len(),
        forall|k: int| j <= k < s.len() ==> is_space_char(s[k]),
    ensures
        trim_end_spec(s) == trim_end_spec(s.take(j)),
    decreases s.len() - j,
{
    if j < s.len() {
        assert(is_space_char(s.last()));
        assert(s.drop_last() =~= s.take(s.len() - 1));
        lemma_trim_end_take(s.take(s.len() - 1), j);
        assert(s.take(s.len() - 1).take(j) =~= s.take(j));
    } else {
        assert(s.take(j) =~= s);
    }
}

/// `s` with leading and trailing whitespace removed.
pub fn trim_str(s: &str) -> (r: &str)
    ensures
        r@ == trim_spec(s@),
{
    let n = s.unicode_len();
    let mut i: usize = 0;
    loop
        invariant
            0 <= i <= n,
            n == s@.len(),
            forall|k: int| 0 <= k < i ==> is_space_char(s@[k]),
        ensures
            0 <= i <= n,
            forall|k: int| 0 <= k < i ==> is_space_char(s@[k]),
            i < n ==> !is_space_char(s@[i as int]),
        decreases n - i,
    {
        if i >= n {
            break;
        }
        let c = s.get_char(i);
        if !is_space(c) {
            break;
        }
        i = i + 1;
    }
    if i == n {
        proof {
            lemma_trim_start_skip(s@, n as int);
            assert(s@.skip(n as int) =~= Seq::<char>::empty());
            assert(trim_spec(s@) =~= Seq::<char>::empty());
        }
        let r = s.substring_char(i, i);
        proof {
            assert(r@ =~= Seq::<char>::empty());
        }
        return r;
    }
    let mut j: usize = n;
    loop
        invariant
            i < j <= n,
            n == s@.len(),
            !is_space_char(s@[i as int]),
            forall|k: int| j <= k < n ==> is_space_char(s@[k]),
        ensures
            i < j <= n,
            forall|k: int| j <= k < n ==> is_space_char(s@[k]),
            !is_space_char(s@[j - 1]),
        decreases j,
    {
        if j == i + 1 {
            break;
        }
        let c = s.get_char(j - 1);
        if !is_space(c) {
            break;
        }
        j = j - 1;
    }
    proof {
        lemma_trim_start_skip(s@, i as int);
        let u = s@.skip(i as int);
        assert(u[0] == s@[i as int]);
        assert(trim_start_spec(u) == u);
        lemma_trim_end_take(u, j - i);
        let v = u.take(j - i);
        assert(v.last() == s@[j - 1]);
        assert(trim_end_spec(v) == v);
        assert(v =~= s@.subrange(i as int, j as int));
    }
    s.substring_char(i, j)
}

/// Joins the present, non-blank parts with single spaces, trimming each.
///
/// This is the class-name combinator every styled element goes through.
pub fn cn(parts: Vec<Option<&str>>) -> (r: String)
    ensures
        r@ == cn_spec(parts.deep_view()),
{
    let ghost pv = parts.deep_view();
    let mut kept: Vec<&str> = Vec::new();
    let mut i: usize = 0;
    while i < parts.len()
        invariant
            0 <= i <= parts.len(),
            pv == parts.deep_view(),
            pv.len() == parts@.len(),
            forall|k: int| 0 <= k < parts@.len() ==> pv[k] == #[trigger] parts@[k].deep_view(),
            kept.deep_view() == kept_parts(pv.take(i as int)),
        decreases parts.len() - i,
    {
        let ghost prev = kept.deep_view();
        let p = parts[i];
        match p {
            Option::None => {},
            Option::Some(s) => {
                let t = trim_str(s);
                if t.unicode_len() > 0 {
                    kept.push(t);
                }
            },
        }
        proof {
            assert(pv.take(i + 1).drop_last() =~= pv.take(i as int));
            assert(pv.take(i + 1).last() == pv[i as int]);
            assert(pv[i as int] == parts@[i as int].deep_view());
            match p {
                Option::None => {
                    assert(kept.deep_view() =~= prev + Seq::<Seq<char>>::empty());
                },
                Option::Some(s) => {
                    if trim_spec(s@).len() == 0 {
                        assert(kept.deep_view() =~= prev + Seq::<Seq<char>>::empty());
                    } else {
                        assert(kept.deep_view() =~= prev + seq![trim_spec(s@)]);
                    }
                },
            }
        }
        i = i + 1;
    }
    proof {
        assert(pv.take(parts@.len() as int) =~= pv);
    }
    let ghost kv = kept.deep_view();
    let mut out = String::new();
    let mut j: usize = 0;
    while j < kept.len()
        invariant
            0 <= j <= kept.len(),
            kv == kept.deep_view(),
            kv.len() == kept@.len(),
            forall|k: int| 0 <= k < kept@.len() ==> kv[k] == #[trigger] kept@[k].deep_view(),
            out@ == join_spaced(kv.take(j as int)),
        decreases kept.len() - j,
    {
        if j > 0 {
            out.append(" ");
            proof {
                reveal_strlit(" ");
                assert(" "@ =~= seq![' ']);
            }
        }
        out.append(kept[j]);
        proof {
            assert(kv.take(j + 1).drop_last() =~= kv.take(j as int));
            assert(kv.take(j + 1).last() == kv[j as int]);
            if j == 0 {
                assert(out@ =~= kv[0]);
            }
        }
        j = j + 1;
    }
    proof {
        assert(kv.take(kept@.len() as int) =~= kv);
    }
    out
}

} // verus!

verus! {

/// Character-wise string equality; `r` holds exactly when the views agree.
pub fn str_eq(a: &str, b: &str) -> (r: bool)
    ensures
        r == (a@ == b@),
{
    let na = a.unicode_len();
    let nb = b.unicode_len();
    if na != nb {
        proof {
            assert(a@ != b@);
        }
        return false;
    }
    let mut i: usize = 0;
    while i < na
        invariant
            0 <= i <= na,
            na == a@.len(),
            na == b@.len(),
            forall|k: int| 0 <= k < i ==> a@[k] == b@[k],
        decreases na - i,
    {
        if a.get_char(i) != b.get_char(i) {
            proof {
                assert(a@[i as int] != b@[i as int]);
            }
            return false;
        }
        i = i + 1;
    }
    proof {
        assert(a@ =~= b@);
    }
    true
}

/// The decimal digit character for `d`.
pub open spec fn digit_char(d: nat) -> char {
    if d == 0 {
        '0'
    } else if d == 1 {
        '1'
    } else if d == 2 {
        '2'
    } else if d == 3 {
        '3'
    } else if d == 4 {
        '4'
    } else if d == 5 {
        '5'
    } else if d == 6 {
        '6'
    } else if d == 7 {
        '7'
    } else if d == 8 {
        '8'
    } else {
        '9'
    }
}

/// The decimal digits of `n`, most significant first.
pub open spec fn dec_digits(n: nat) -> Seq<char>
    decreases n,
{
    if n < 10 {
        seq![digit_char(n)]
    } else {
        dec_digits(n / 10).push(digit_char(n % 10))
    }
}

fn digit_str(d: u64) -> (r: &'static str)
    requires
        d < 10,
    ensures
        r@ == seq![digit_char(d as nat)],
{
    if d == 0 {
        proof {
            reveal_strlit("0");
            assert("0"@ =~= seq!['0']);
        }
        "0"
    } else if d == 1 {
        proof {
            reveal_strlit("1");
            assert("1"@ =~= seq!['1']);
        }
        "1"
    } else if d == 2 {
        proof {
            reveal_strlit("2");
            assert("2"@ =~= seq!['2']);
        }
        "2"
    } else if d == 3 {
        proof {
            reveal_strlit("3");
            assert("3"@ =~= seq!['3']);
        }
        "3"
    } else if d == 4 {
        proof {
            reveal_strlit("4");
            assert("4"@ =~= seq!['4']);
        }
        "4"
    } else if d == 5 {
        proof {
            reveal_strlit("5");
            assert("5"@ =~= seq!['5']);
        }
        "5"
    } else if d == 6 {
        proof {
            reveal_strlit("6");
            assert("6"@ =~= seq!['6']);
        }
        "6"
    } else if d == 7 {
        proof {
            reveal_strlit("7");
            assert("7"@ =~= seq!['7']);
        }
        "7"
    } else if d == 8 {
        proof {
            reveal_strlit("8");
            assert("8"@ =~= seq!['8']);
        }
        "8"
    } else {
        proof {
            reveal_strlit("9");
            assert("9"@ =~= seq!['9']);
        }
        "9"
    }
}

/// Renders `n` in decimal, most significant digit first, no sign and no
/// leading zero (except for `n == 0` itself).
pub fn u64_to_dec(n: u64) -> (r: String)
    ensures
        r@ == dec_digits(n as nat),
    decreases n,
{
    if n < 10 {
        let s = digit_str(n);
        let r = String::from_str(s);
        r
    } else {
        let high = u64_to_dec(n / 10);
        let low = digit_str(n % 10);
        let r = high.concat(low);
        proof {
            assert(dec_digits((n / 10) as nat).push(digit_char((n % 10) as nat)) =~= dec_digits(
                (n / 10) as nat,
            ) + seq![digit_char((n % 10) as nat)]);
        }
        r
    }
}

/// The view of an optional string slice.
pub open spec fn opt_view(s: Option<&str>) -> Option<Seq<char>> {
    match s {
        Option::Some(x) => Option::Some(x@),
        Option::None => Option::None,
    }
}

/// [`cn`] over a base class list and an optional caller class.
pub fn compose2(base: &str, extra: Option<&str>) -> (r: String)
    ensures
        r@ == cn_spec(seq![Some(base@), opt_view(extra)]),
{
    let mut parts: Vec<Option<&str>> = Vec::new();
    parts.push(Some(base));
    parts.push(extra);
    let ghost pv = parts.deep_view();
    let r = cn(parts);
    proof {
        assert(pv =~= seq![Some(base@), opt_view(extra)]);
    }
    r
}

/// [`cn`] over a base class list, a variant class list, and an optional
/// caller class.
pub fn compose3(base: &str, second: &str, extra: Option<&str>) -> (r: String)
    ensures
        r@ == cn_spec(seq![Some(base@), Some(second@), opt_view(extra)]),
{
    let mut parts: Vec<Option<&str>> = Vec::new();
    parts.push(Some(base));
    parts.push(Some(second));
    parts.push(extra);
    let ghost pv = parts.deep_view();
    let r = cn(parts);
    proof {
        assert(pv =~= seq![Some(base@), Some(second@), opt_view(extra)]);
    }
    r
}

/// The `true`/`false` value of a boolean ARIA attribute.
pub fn bool_attr(b: bool) -> (r: &'static str)
    ensures
        r@ == if b {
            "true"@
        } else {
            "false"@
        },
{
    if b {
        "true"
    } else {
        "false"
    }
}

/// The `data-state` attribute of a disclosure: `open` or `closed`.
pub fn data_state_open(open_state: bool) -> (r: &'static str)
    ensures
        r@ == if open_state {
            "open"@
        } else {
            "closed"@
        },
{
    if open_state {
        "open"
    } else {
        "closed"
    }
}

/// Whether a keyboard event names the Enter key. A checkbox does not
/// activate on Enter, so its trigger suppresses the default there.
pub fn key_is_enter(key: &str) -> (r: bool)
    ensures
        r == (key@ == "Enter"@),
{
    str_eq(key, "Enter")
}

/// Whether a keyboard event names the Escape key, which closes an open
/// tooltip or dialog.
pub fn key_is_escape(key: &str) -> (r: bool)
    ensures
        r == (key@ == "Escape"@),
{
    str_eq(key, "Escape")
}

/// Whether a keyboard event names the Tab key, the only key the focus
/// trap intercepts.
pub fn key_is_tab(key: &str) -> (r: bool)
    ensures
        r == (key@ == "Tab"@),
{
    str_eq(key, "Tab")
}

} // verus!
