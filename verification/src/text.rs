//! Text helpers shared by the library: decimal rendering and parsing of
//! unsigned integers, whitespace splitting, and lexicographic order.

use vstd::prelude::*;
use vstd::string::*;

verus! {

/// The character for a decimal digit `d < 10`.
pub open spec fn digit_char(d: nat) -> char {
    if d == 0 {
        '0'
    } else if d == 1 {
        '1'
    } else if d == 2 {
        '2'
    } else if d == 3 {
        '3'
    } else if d == 4 {
        '4'
    } else if d == 5 {
        '5'
    } else if d == 6 {
        '6'
    } else if d == 7 {
        '7'
    } else if d == 8 {
        '8'
    } else {
        '9'
    }
}

/// Decimal rendering of a natural number, without leading zeros.
pub open spec fn dec(n: nat) -> Seq<char>
    decreases n,
{
    if n < 10 {
        seq![digit_char(n)]
    } else {
        dec(n / 10).push(digit_char(n % 10))
    }
}

/// Decimal rendering of a signed integer: a `-` before negative values.
pub open spec fn dec_int(i: int) -> Seq<char> {
    if i < 0 {
        seq!['-'] + dec((-i) as nat)
    } else {
        dec(i as nat)
    }
}

/// The one-character string of digit `d`.
pub fn digit_str(d: u64) -> (s: &'static str)
    requires
        d < 10,
    ensures
        s@ == seq![digit_char(d as nat)],
{
    proof {
        reveal_strlit("0");
        reveal_strlit("1");
        reveal_strlit("2");
        reveal_strlit("3");
        reveal_strlit("4");
        reveal_strlit("5");
        reveal_strlit("6");
        reveal_strlit("7");
        reveal_strlit("8");
        reveal_strlit("9");
    }
    let s: &'static str = if d == 0 {
        "0"
    } else if d == 1 {
        "1"
    } else if d == 2 {
        "2"
    } else if d == 3 {
        "3"
    } else if d == 4 {
        "4"
    } else if d == 5 {
        "5"
    } else if d == 6 {
        "6"
    } else if d == 7 {
        "7"
    } else if d == 8 {
        "8"
    } else {
        "9"
    };
    assert(s@ =~= seq![digit_char(d as nat)]);
    s
}

/// Renders `n` in decimal (what `n.to_string()` gives).
pub fn u64_to_string(n: u64) -> (s: String)
    ensures
        s@ == dec(n as nat),
    decreases n,
{
    if n < 10 {
        String::from_str(digit_str(n))
    } else {
        let mut s = u64_to_string(n / 10);
        s.append(digit_str(n % 10));
        s
    }
}

/// Renders a signed 32-bit integer in decimal (what `i.to_string()` gives).
pub fn i32_to_string(i: i32) -> (s: String)
    ensures
        s@ == dec_int(i as int),
{
    if i < 0 {
        let mag: u64 = (-(i as i64)) as u64;
        let mut s = String::from_str("-");
        proof {
            reveal_strlit("-");
        }
        let digits = u64_to_string(mag);
        s.append(digits.as_str());
        s
    } else {
        u64_to_string(i as u64)
    }
}


// ── Parsing unsigned integers ──

/// A decimal digit character.
pub open spec fn is_digit(c: char) -> bool {
    '0' <= c && c <= '9'
}

/// Every character of `s` is a decimal digit.
pub open spec fn all_digits(s: Seq<char>) -> bool {
    forall|i: int| 0 <= i < s.len() ==> is_digit(#[trigger] s[i])
}

/// The value of a string of decimal digits (most significant first).
pub open spec fn digits_value(s: Seq<char>) -> nat
    decreases s.len(),
{
    if s.len() == 0 {
        0
    } else {
        digits_value(s.drop_last()) * 10 + ((s.last() as int - 48) as nat)
    }
}

/// The digits after an optional leading `+`.
pub open spec fn unsigned_body(s: Seq<char>) -> Seq<char> {
    if s.len() > 0 && s[0] == '+' {
        s.drop_first()
    } else {
        s
    }
}

/// What `str::parse` gives for an unsigned type whose largest value is `max`:
/// an optional `+` followed by at least one digit, with no other character,
/// and a value that fits.
pub open spec fn parse_unsigned(s: Seq<char>, max: nat) -> Option<nat> {
    let t = unsigned_body(s);
    if t.len() > 0 && all_digits(t) && digits_value(t) <= max {
        Some(digits_value(t))
    } else {
        None
    }
}

/// Appending digits never lowers the value.
pub proof fn lemma_digits_value_prefix(t: Seq<char>, k: int)
    requires
        0 <= k <= t.len(),
        all_digits(t),
    ensures
        digits_value(t.subrange(0, k)) <= digits_value(t),
    decreases t.len() - k,
{
    if k < t.len() {
        lemma_digits_value_prefix(t, k + 1);
        let p = t.subrange(0, k + 1);
        assert(p.drop_last() =~= t.subrange(0, k));
        assert(is_digit(t[k]));
    }
    else {
        assert(t.subrange(0, k) =~= t);
    }
}

/// Parses an unsigned decimal no larger than `max`, as `str::parse` does.
fn parse_bounded(s: &str, max: u64) -> (r: Option<u64>)
    ensures
        match r {
            Some(v) => parse_unsigned(s@, max as nat) == Some(v as nat),
            None => parse_unsigned(s@, max as nat) is None,
        },
{
    let n: usize = s.unicode_len();
    let ghost t = unsigned_body(s@);
    let mut i: usize = 0;
    if n > 0 && s.get_char(0) == '+' {
        i = 1;
    }
    let start: usize = i;
    assert(t =~= s@.subrange(start as int, n as int));
    if start == n {
        return None;
    }
    let mut acc: u64 = 0;
    while i < n
        invariant
            start <= i <= n,
            n == s@.len(),
            t =~= s@.subrange(start as int, n as int),
            t == unsigned_body(s@),
            all_digits(t.subrange(0, i - start)),
            acc as nat == digits_value(t.subrange(0, i - start)),
            acc <= max,
        decreases n - i,
    {
        let c = s.get_char(i);
        let ghost p = t.subrange(0, i - start + 1);
        assert(p.drop_last() =~= t.subrange(0, i - start));
        assert(p.last() == c);
        assert(t[i - start] == c);
        if !('0' <= c && c <= '9') {
            assert(!is_digit(t[i - start]));
            assert(!all_digits(t));
            assert(t == unsigned_body(s@));
            assert(parse_unsigned(s@, max as nat) is None);
            return None;
        }
        let d: u64 = (c as u32 - 48) as u64;
        assert(all_digits(p));
        if d > max || acc > (max - d) / 10 {
            assert(digits_value(p) > max) by (nonlinear_arith)
                requires
                    digits_value(p) == acc * 10 + d,
                    d > max || acc > (max - d) / 10,
                    d < 10,
            {
            }
            proof {
                if all_digits(t) {
                    lemma_digits_value_prefix(t, i - start + 1);
                }
            }
            return None;
        }
        assert(acc * 10 + d <= max) by (nonlinear_arith)
            requires
                acc <= (max - d) / 10,
                d <= max,
        {
        }
        acc = acc * 10 + d;
        i = i + 1;
    }
    assert(t.subrange(0, n - start) =~= t);
    Some(acc)
}

/// Parses a `u16` as `s.parse::<u16>().ok()` does.
pub fn parse_u16(s: &str) -> (r: Option<u16>)
    ensures
        match r {
            Some(v) => parse_unsigned(s@, 65535) == Some(v as nat),
            None => parse_unsigned(s@, 65535) is None,
        },
{
    match parse_bounded(s, 65535) {
        Some(v) => Some(v as u16),
        None => None,
    }
}

/// Parses a `u32` as `s.parse::<u32>().ok()` does.
pub fn parse_u32(s: &str) -> (r: Option<u32>)
    ensures
        match r {
            Some(v) => parse_unsigned(s@, 4294967295) == Some(v as nat),
            None => parse_unsigned(s@, 4294967295) is None,
        },
{
    match parse_bounded(s, 4294967295) {
        Some(v) => Some(v as u32),
        None => None,
    }
}

/// Rendering and parsing agree: the digits of `n` read back as `n`.
pub proof fn lemma_dec_digits(n: nat)
    ensures
        dec(n).len() > 0,
        all_digits(dec(n)),
        digits_value(dec(n)) == n,
        dec(n)[0] != '+',
    decreases n,
{
    let s = dec(n);
    let d = n % 10;
    if n >= 10 {
        let p = dec(n / 10);
        lemma_dec_digits(n / 10);
        assert(s == p.push(digit_char(d)));
        assert(s.drop_last() =~= p);
        assert(digit_char(d) as int - 48 == d);
        assert(digits_value(s) == digits_value(p) * 10 + d);
        assert(n == (n / 10) * 10 + n % 10) by (nonlinear_arith);
        assert forall|i: int| 0 <= i < s.len() implies is_digit(#[trigger] s[i]) by {
            if i < p.len() {
                assert(s[i] == p[i]);
            }
        }
    } else {
        assert(s == seq![digit_char(n)]);
        assert(s.drop_last() =~= Seq::<char>::empty());
        assert(digit_char(n) as int - 48 == n);
        assert(digits_value(Seq::<char>::empty()) == 0);
        assert(s.last() == digit_char(n));
        assert(digits_value(s) == n);
    }
}

/// Parsing the decimal rendering of a value that fits gives the value back.
pub proof fn lemma_parse_dec(n: nat, max: nat)
    requires
        n <= max,
    ensures
        parse_unsigned(dec(n), max) == Some(n),
{
    lemma_dec_digits(n);
}

// ── Whitespace ──

/// Unicode `White_Space`, the property `char::is_whitespace` tests.
pub open spec fn is_ws(c: char) -> bool {
    ||| ('\t' <= c && c <= '\r')
    ||| c == ' '
    ||| c == '\u{85}'
    ||| c == '\u{a0}'
    ||| c == '\u{1680}'
    ||| ('\u{2000}' <= c && c <= '\u{200a}')
    ||| c == '\u{2028}'
    ||| c == '\u{2029}'
    ||| c == '\u{202f}'
    ||| c == '\u{205f}'
    ||| c == '\u{3000}'
}

/// Whether `c` is whitespace.
pub fn is_whitespace(c: char) -> (b: bool)
    ensures
        b == is_ws(c),
{
    ('\t' <= c && c <= '\r') || c == ' ' || c == '\u{85}' || c == '\u{a0}' || c == '\u{1680}' || (
    '\u{2000}' <= c && c <= '\u{200a}') || c == '\u{2028}' || c == '\u{2029}' || c == '\u{202f}'
        || c == '\u{205f}' || c == '\u{3000}'
}

/// Splitting from position `i`, with `cur` the word being read and `acc`
/// the words already complete.
pub open spec fn split_ws_from(
    s: Seq<char>,
    i: nat,
    cur: Seq<char>,
    acc: Seq<Seq<char>>,
) -> Seq<Seq<char>>
    decreases s.len() - i,
{
    if i >= s.len() {
        if cur.len() > 0 {
            acc.push(cur)
        } else {
            acc
        }
    } else if is_ws(s[i as int]) {
        split_ws_from(s, i + 1, seq![], if cur.len() > 0 { acc.push(cur) } else { acc })
    } else {
        split_ws_from(s, i + 1, cur.push(s[i as int]), acc)
    }
}

/// The maximal runs of non-whitespace characters of `s`, in order: what
/// `str::split_whitespace` yields.
pub open spec fn words(s: Seq<char>) -> Seq<Seq<char>> {
    split_ws_from(s, 0, seq![], seq![])
}

/// A word: not empty, and without whitespace.
pub open spec fn is_word(w: Seq<char>) -> bool {
    w.len() > 0 && forall|j: int| 0 <= j < w.len() ==> !is_ws(#[trigger] w[j])
}

proof fn lemma_split_words(s: Seq<char>, i: nat, cur: Seq<char>, acc: Seq<Seq<char>>)
    requires
        forall|k: int| 0 <= k < acc.len() ==> is_word(#[trigger] acc[k]),
        forall|j: int| 0 <= j < cur.len() ==> !is_ws(#[trigger] cur[j]),
    ensures
        forall|k: int|
            0 <= k < split_ws_from(s, i, cur, acc).len() ==> is_word(
                #[trigger] split_ws_from(s, i, cur, acc)[k],
            ),
    decreases s.len() - i,
{
    if i >= s.len() {
        if cur.len() > 0 {
            assert forall|k: int| 0 <= k < acc.push(cur).len() implies is_word(
                #[trigger] acc.push(cur)[k],
            ) by {
                if k < acc.len() {
                    assert(acc.push(cur)[k] == acc[k]);
                }
            }
            assert(split_ws_from(s, i, cur, acc) == acc.push(cur));
        } else {
            assert(split_ws_from(s, i, cur, acc) == acc);
        }
    } else if is_ws(s[i as int]) {
        let acc2 = if cur.len() > 0 { acc.push(cur) } else { acc };
        assert forall|k: int| 0 <= k < acc2.len() implies is_word(#[trigger] acc2[k]) by {
            if k < acc.len() {
                assert(acc2[k] == acc[k]);
            }
        }
        lemma_split_words(s, i + 1, seq![], acc2);
        assert(split_ws_from(s, i, cur, acc) == split_ws_from(s, i + 1, seq![], acc2));
    } else {
        let cur2 = cur.push(s[i as int]);
        assert forall|j: int| 0 <= j < cur2.len() implies !is_ws(#[trigger] cur2[j]) by {
            if j < cur.len() {
                assert(cur2[j] == cur[j]);
            }
        }
        lemma_split_words(s, i + 1, cur2, acc);
        assert(split_ws_from(s, i, cur, acc) == split_ws_from(s, i + 1, cur2, acc));
    }
}

proof fn lemma_split_acc(s: Seq<char>, i: nat, cur: Seq<char>, acc: Seq<Seq<char>>)
    ensures
        split_ws_from(s, i, cur, acc) == acc + split_ws_from(s, i, cur, seq![]),
    decreases s.len() - i,
{
    if i >= s.len() {
        if cur.len() > 0 {
            assert(acc.push(cur) =~= acc + seq![].push(cur));
        } else {
            assert(acc =~= acc + Seq::<Seq<char>>::empty());
        }
    } else if is_ws(s[i as int]) {
        if cur.len() > 0 {
            lemma_split_acc(s, i + 1, seq![], acc.push(cur));
            lemma_split_acc(s, i + 1, seq![], seq![].push(cur));
            assert(acc.push(cur) =~= acc + seq![].push(cur));
            assert(acc.push(cur) + split_ws_from(s, i + 1, seq![], seq![]) =~= acc + (seq![].push(
                cur,
            ) + split_ws_from(s, i + 1, seq![], seq![])));
        } else {
            lemma_split_acc(s, i + 1, seq![], acc);
        }
    } else {
        lemma_split_acc(s, i + 1, cur.push(s[i as int]), acc);
    }
}

/// Every piece that splitting on whitespace yields is a word.
pub proof fn law_split_yields_words(s: Seq<char>)
    ensures
        forall|k: int| 0 <= k < words(s).len() ==> is_word(#[trigger] words(s)[k]),
{
    lemma_split_words(s, 0, seq![], seq![]);
}

/// The views of a sequence of strings.
pub open spec fn views(v: Seq<String>) -> Seq<Seq<char>> {
    v.map_values(|x: String| x@)
}

/// Pushing a string pushes its view.
pub proof fn lemma_views_push(v: Seq<String>, x: String)
    ensures
        views(v.push(x)) == views(v).push(x@),
{
    assert(views(v.push(x)) =~= views(v).push(x@));
}

/// Appends the whitespace-separated words of `s` to `out`, as
/// `out.extend(s.split_whitespace().map(String::from))` does.
pub fn extend_words(out: &mut Vec<String>, s: &str)
    ensures
        views(final(out)@) == views(old(out)@) + words(s@),
{
    let n: usize = s.unicode_len();
    let ghost sv = s@;
    let ghost base = views(out@);
    let mut i: usize = 0;
    proof {
        lemma_split_acc(sv, 0, seq![], base);
        assert(sv.subrange(0, 0) =~= Seq::<char>::empty());
    }
    let mut in_word: bool = false;
    let mut start: usize = 0;
    while i < n
        invariant
            n == sv.len(),
            sv == s@,
            i <= n,
            start <= i,
            in_word == (start < i),
            forall|j: int| start <= j < i ==> !is_ws(#[trigger] sv[j]),
            base + words(sv) == split_ws_from(
                sv,
                i as nat,
                sv.subrange(start as int, i as int),
                views(out@),
            ),
        decreases n - i,
    {
        let c = s.get_char(i);
        if is_whitespace(c) {
            let ghost before = views(out@);
            if in_word {
                let w = s.substring_char(start, i);
                let ws = String::from_str(w);
                proof {
                    lemma_views_push(out@, ws);
                }
                out.push(ws);
            }
            proof {
                assert(sv.subrange(start as int, i as int).len() > 0 <==> in_word);
            }
            in_word = false;
            i = i + 1;
            start = i;
            assert(sv.subrange(start as int, i as int) =~= Seq::<char>::empty());
        } else {
            assert(sv.subrange(start as int, i as int).push(sv[i as int]) =~= sv.subrange(
                start as int,
                i + 1,
            ));
            in_word = true;
            i = i + 1;
        }
    }
    if in_word {
        let w = s.substring_char(start, n);
        let ws = String::from_str(w);
        proof {
            lemma_views_push(out@, ws);
        }
        out.push(ws);
    } else {
        assert(sv.subrange(start as int, i as int).len() == 0);
    }
}

// ── Lexicographic order ──

/// Lexicographic order on character sequences, by code point: the order of
/// `str`'s `Ord`.
pub open spec fn seq_lt(a: Seq<char>, b: Seq<char>) -> bool
    decreases a.len(),
{
    if a.len() == 0 {
        b.len() > 0
    } else if b.len() == 0 {
        false
    } else if a[0] < b[0] {
        true
    } else if a[0] > b[0] {
        false
    } else {
        seq_lt(a.drop_first(), b.drop_first())
    }
}

/// `a` comes no later than `b`.
pub open spec fn seq_le(a: Seq<char>, b: Seq<char>) -> bool {
    !seq_lt(b, a)
}

/// Exactly one of `a < b`, `a == b`, `b < a` holds.
pub proof fn lemma_seq_lt_total(a: Seq<char>, b: Seq<char>)
    ensures
        seq_lt(a, b) || seq_lt(b, a) || a == b,
        !(seq_lt(a, b) && seq_lt(b, a)),
        seq_lt(a, b) ==> a != b,
    decreases a.len(),
{
    if a.len() > 0 && b.len() > 0 && a[0] == b[0] {
        lemma_seq_lt_total(a.drop_first(), b.drop_first());
        if a.drop_first() == b.drop_first() {
            assert(a =~= seq![a[0]] + a.drop_first());
            assert(b =~= seq![b[0]] + b.drop_first());
        }
    } else if a.len() > 0 && b.len() > 0 {
    } else if a.len() == 0 && b.len() == 0 {
        assert(a =~= b);
    }
}

/// `<` on character sequences is transitive.
pub proof fn lemma_seq_lt_trans(a: Seq<char>, b: Seq<char>, c: Seq<char>)
    requires
        seq_lt(a, b),
        seq_lt(b, c),
    ensures
        seq_lt(a, c),
    decreases a.len(),
{
    if a.len() > 0 && b.len() > 0 && c.len() > 0 && a[0] == b[0] && b[0] == c[0] {
        lemma_seq_lt_trans(a.drop_first(), b.drop_first(), c.drop_first());
    }
}

/// Whether `a` sorts strictly before `b`.
pub fn str_lt(a: &str, b: &str) -> (r: bool)
    ensures
        r == seq_lt(a@, b@),
{
    let na: usize = a.unicode_len();
    let nb: usize = b.unicode_len();
    let mut i: usize = 0;
    assert(a@.skip(0) =~= a@);
    assert(b@.skip(0) =~= b@);
    while i < na && i < nb
        invariant
            na == a@.len(),
            nb == b@.len(),
            i <= na,
            i <= nb,
            a@.subrange(0, i as int) == b@.subrange(0, i as int),
            seq_lt(a@, b@) == seq_lt(a@.skip(i as int), b@.skip(i as int)),
        decreases na - i,
    {
        let ca = a.get_char(i);
        let cb = b.get_char(i);
        assert(a@.skip(i as int)[0] == ca);
        assert(b@.skip(i as int)[0] == cb);
        if ca < cb {
            return true;
        }
        if ca > cb {
            return false;
        }
        assert(a@.skip(i as int).drop_first() =~= a@.skip(i + 1));
        assert(b@.skip(i as int).drop_first() =~= b@.skip(i + 1));
        assert(a@.subrange(0, i + 1) =~= a@.subrange(0, i as int).push(ca));
        assert(b@.subrange(0, i + 1) =~= b@.subrange(0, i as int).push(cb));
        i = i + 1;
    }
    assert(a@.skip(i as int).len() == na - i);
    i < nb
}

} // verus!
