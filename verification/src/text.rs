//! Character-level text handling: whitespace, trimming, word splitting,
//! searching, decimal numbers and lowercasing.
use vstd::prelude::*;
use vstd::string::*;

verus! {

/// The Unicode `White_Space` property.
pub open spec fn is_white_space(c: char) -> bool {
    ||| '\u{9}' <= c <= '\u{d}'
    ||| c == ' '
    ||| c == '\u{85}'
    ||| c == '\u{a0}'
    ||| c == '\u{1680}'
    ||| '\u{2000}' <= c <= '\u{200a}'
    ||| c == '\u{2028}'
    ||| c == '\u{2029}'
    ||| c == '\u{202f}'
    ||| c == '\u{205f}'
    ||| c == '\u{3000}'
}

pub fn char_is_white_space(c: char) -> (r: bool)
    ensures
        r == is_white_space(c),
{
    ('\u{9}' <= c && c <= '\u{d}') || c == ' ' || c == '\u{85}' || c == '\u{a0}' || c
        == '\u{1680}' || ('\u{2000}' <= c && c <= '\u{200a}') || c == '\u{2028}' || c
        == '\u{2029}' || c == '\u{202f}' || c == '\u{205f}' || c == '\u{3000}'
}

/// The characters of a string slice, one by one.
pub fn chars_of(s: &str) -> (v: Vec<char>)
    ensures
        v@ == s@,
{
    let n = s.unicode_len();
    let mut v: Vec<char> = Vec::new();
    let mut i: usize = 0;
    while i < n
        invariant
            n == s@.len(),
            i <= n,
            v@ == s@.take(i as int),
        decreases n - i,
    {
        let c = s.get_char(i);
        v.push(c);
        assert(s@.take(i + 1) =~= s@.take(i as int).push(c));
        i = i + 1;
    }
    assert(s@.take(n as int) =~= s@);
    v
}

/// Drops leading whitespace.
pub open spec fn trim_start(s: Seq<char>) -> Seq<char>
    decreases s.len(),
{
    if s.len() > 0 && is_white_space(s[0]) {
        trim_start(s.drop_first())
    } else {
        s
    }
}

/// Drops trailing whitespace.
pub open spec fn trim_end(s: Seq<char>) -> Seq<char>
    decreases s.len(),
{
    if s.len() > 0 && is_white_space(s.last()) {
        trim_end(s.drop_last())
    } else {
        s
    }
}

/// Drops leading and trailing whitespace, as `str::trim` does.
pub open spec fn trim(s: Seq<char>) -> Seq<char> {
    trim_end(trim_start(s))
}

/// The bounds of the trimmed part of `s`.
pub fn trim_bounds(s: &Vec<char>) -> (r: (usize, usize))
    ensures
        r.0 <= r.1 <= s@.len(),
        s@.subrange(r.0 as int, r.1 as int) == trim(s@),
{
    let n = s.len();
    let mut a: usize = 0;
    assert(s@.subrange(0, n as int) =~= s@);
    while a < n && char_is_white_space(s[a])
        invariant
            n == s@.len(),
            a <= n,
            trim_start(s@) == trim_start(s@.subrange(a as int, n as int)),
        decreases n - a,
    {
        assert(s@.subrange(a as int, n as int).drop_first() =~= s@.subrange(a + 1, n as int));
        a = a + 1;
    }
    let mut b: usize = n;
    while b > a && char_is_white_space(s[b - 1])
        invariant
            n == s@.len(),
            a <= b <= n,
            trim_start(s@) == s@.subrange(a as int, n as int),
            trim_end(s@.subrange(a as int, n as int)) == trim_end(s@.subrange(a as int, b as int)),
        decreases b - a,
    {
        assert(s@.subrange(a as int, b as int).drop_last() =~= s@.subrange(a as int, b - 1));
        b = b - 1;
    }
    (a, b)
}

/// `str::trim`, as an owned string.
pub fn trimmed(s: &str) -> (r: String)
    ensures
        r@ == trim(s@),
{
    let v = chars_of(s);
    let (a, b) = trim_bounds(&v);
    String::from_str(s.substring_char(a, b))
}

/// The words of `s`: its maximal runs of non-whitespace characters, in order,
/// as `str::split_whitespace` yields them.
pub open spec fn split_whitespace(s: Seq<char>) -> Seq<Seq<char>>
    decreases s.len(),
{
    if s.len() == 0 {
        seq![]
    } else {
        let init = split_whitespace(s.drop_last());
        let c = s.last();
        if is_white_space(c) {
            init
        } else if s.len() >= 2 && !is_white_space(s[s.len() - 2]) {
            init.update(init.len() - 1, init.last().push(c))
        } else {
            init.push(seq![c])
        }
    }
}

pub proof fn lemma_split_nonempty(s: Seq<char>)
    requires
        s.len() > 0,
        !is_white_space(s.last()),
    ensures
        split_whitespace(s).len() > 0,
    decreases s.len(),
{
    if s.len() >= 2 && !is_white_space(s[s.len() - 2]) {
        assert(s.drop_last().last() == s[s.len() - 2]);
        lemma_split_nonempty(s.drop_last());
    }
}

/// A character run without whitespace is no word break.
pub open spec fn no_white_space(w: Seq<char>) -> bool {
    forall|j: int| 0 <= j < w.len() ==> !is_white_space(#[trigger] w[j])
}

/// Appending a run of non-whitespace characters either extends the last
/// word (when `p` ends inside one) or adds a new word.
pub proof fn lemma_split_append_word(p: Seq<char>, w: Seq<char>)
    requires
        w.len() > 0,
        no_white_space(w),
    ensures
        split_whitespace(p + w) == if p.len() > 0 && !is_white_space(p.last()) {
            split_whitespace(p).update(
                split_whitespace(p).len() - 1,
                split_whitespace(p).last() + w,
            )
        } else {
            split_whitespace(p).push(w)
        },
    decreases w.len(),
{
    let c = w.last();
    assert(!is_white_space(w[w.len() - 1]));
    if p.len() > 0 && !is_white_space(p.last()) {
        lemma_split_nonempty(p);
    }
    if w.len() == 1 {
        let s = p + w;
        assert(s.drop_last() =~= p);
        assert(w =~= seq![c]);
        if p.len() > 0 {
            assert(s[s.len() - 2] == p.last());
        }
        assert(split_whitespace(p).last().push(c) =~= split_whitespace(p).last() + w);
    } else {
        let w1 = w.drop_last();
        assert(no_white_space(w1));
        lemma_split_append_word(p, w1);
        let s = p + w;
        assert(s.drop_last() =~= p + w1);
        assert(s[s.len() - 2] == w1.last());
        assert(!is_white_space(w[w.len() - 2]));
        lemma_split_nonempty(p + w1);
        let prev = split_whitespace(p + w1);
        if p.len() > 0 && !is_white_space(p.last()) {
            let sp = split_whitespace(p);
            assert((sp.last() + w1).push(c) =~= sp.last() + w);
            assert(prev.update(prev.len() - 1, prev.last().push(c)) =~= sp.update(
                sp.len() - 1,
                sp.last() + w,
            ));
        } else {
            let sp = split_whitespace(p);
            assert(w1.push(c) =~= w);
            assert(prev.update(prev.len() - 1, prev.last().push(c)) =~= sp.push(w));
        }
    }
}

/// Every word is non-empty and free of whitespace.
pub proof fn lemma_split_words(s: Seq<char>)
    ensures
        forall|k: int|
            0 <= k < split_whitespace(s).len() ==> #[trigger] split_whitespace(s)[k].len() > 0
                && no_white_space(split_whitespace(s)[k]),
    decreases s.len(),
{
    if s.len() > 0 {
        lemma_split_words(s.drop_last());
        let init = split_whitespace(s.drop_last());
        let c = s.last();
        if !is_white_space(c) && s.len() >= 2 && !is_white_space(s[s.len() - 2]) {
            assert(s.drop_last().last() == s[s.len() - 2]);
            lemma_split_nonempty(s.drop_last());
            let w = init.last().push(c);
            assert(no_white_space(init[init.len() - 1]));
            assert(no_white_space(w));
        } else if !is_white_space(c) {
            assert(no_white_space(seq![c]));
        }
    }
}

/// A non-empty run without whitespace is its own trimmed form.
pub proof fn lemma_trim_word(w: Seq<char>)
    requires
        w.len() > 0,
        no_white_space(w),
    ensures
        trim(w) == w,
{
    assert(!is_white_space(w[0]));
    assert(!is_white_space(w[w.len() - 1]));
}

/// Two whitespace-free words with a space between are read as those two words.
pub proof fn lemma_split_two(a: Seq<char>, b: Seq<char>)
    requires
        a.len() > 0,
        b.len() > 0,
        no_white_space(a),
        no_white_space(b),
    ensures
        split_whitespace(a + seq![' '] + b) == seq![a, b],
{
    lemma_split_append_word(Seq::<char>::empty(), a);
    assert(Seq::<char>::empty() + a =~= a);
    let s1 = a + seq![' '];
    assert(s1.drop_last() =~= a);
    assert(is_white_space(' '));
    assert(split_whitespace(s1) == split_whitespace(a));
    lemma_split_append_word(s1, b);
    assert(split_whitespace(Seq::<char>::empty()) =~= Seq::<Seq<char>>::empty());
    assert(Seq::<Seq<char>>::empty().push(a).push(b) =~= seq![a, b]);
}

/// Start and end of each word of `s`.
pub fn word_spans(s: &Vec<char>) -> (spans: Vec<(usize, usize)>)
    ensures
        spans@.len() == split_whitespace(s@).len(),
        forall|k: int|
            #![trigger spans@[k]]
            #![trigger split_whitespace(s@)[k]]
            0 <= k < spans@.len() ==> {
                &&& spans@[k].0 <= spans@[k].1 <= s@.len()
                &&& s@.subrange(spans@[k].0 as int, spans@[k].1 as int)
                    == split_whitespace(s@)[k]
            },
{
    let n = s.len();
    let mut spans: Vec<(usize, usize)> = Vec::new();
    let mut i: usize = 0;
    while i < n
        invariant
            n == s@.len(),
            i <= n,
            spans@.len() == split_whitespace(s@.take(i as int)).len(),
            forall|k: int|
                #![trigger spans@[k]]
                #![trigger split_whitespace(s@.take(i as int))[k]]
                0 <= k < spans@.len() ==> {
                    &&& spans@[k].0 <= spans@[k].1 <= i
                    &&& s@.subrange(spans@[k].0 as int, spans@[k].1 as int)
                        == split_whitespace(s@.take(i as int))[k]
                },
            i > 0 && !is_white_space(s@[i - 1]) ==> spans@.len() > 0 && spans@.last().1 == i,
        decreases n - i,
    {
        let ghost pre = s@.take(i as int);
        let ghost post = s@.take(i + 1);
        assert(post.drop_last() =~= pre);
        assert(post.last() == s@[i as int]);
        let c = s[i];
        let ghost old_spans = spans@;
        if char_is_white_space(c) {
            assert(split_whitespace(post) == split_whitespace(pre));
            assert forall|m: int| 0 <= m < spans@.len() implies {
                &&& spans@[m].0 <= spans@[m].1 <= i + 1
                &&& s@.subrange(spans@[m].0 as int, spans@[m].1 as int)
                    == #[trigger] split_whitespace(post)[m]
            } by {
                assert(s@.subrange(old_spans[m].0 as int, old_spans[m].1 as int)
                    == split_whitespace(pre)[m]);
            }
        } else if i >= 1 && !char_is_white_space(s[i - 1]) {
            assert(post[post.len() - 2] == s@[i - 1]);
            let k = spans.len() - 1;
            let (a, _) = spans[k];
            proof {
                assert(s@.subrange(old_spans[k as int].0 as int, old_spans[k as int].1 as int)
                    == split_whitespace(pre)[k as int]);
                assert(s@.subrange(a as int, i + 1) =~= s@.subrange(a as int, i as int).push(c));
            }
            spans.set(k, (a, i + 1));
            assert(split_whitespace(post) == split_whitespace(pre).update(
                k as int,
                split_whitespace(pre).last().push(c),
            ));
            assert forall|m: int| 0 <= m < spans@.len() implies {
                &&& spans@[m].0 <= spans@[m].1 <= i + 1
                &&& s@.subrange(spans@[m].0 as int, spans@[m].1 as int)
                    == #[trigger] split_whitespace(post)[m]
            } by {
                if m != k {
                    assert(s@.subrange(old_spans[m].0 as int, old_spans[m].1 as int)
                        == split_whitespace(pre)[m]);
                }
            }
        } else {
            proof {
                if i >= 1 {
                    assert(post[post.len() - 2] == s@[i - 1]);
                }
                assert(s@.subrange(i as int, i + 1) =~= seq![c]);
            }
            spans.push((i, i + 1));
            assert(split_whitespace(post) == split_whitespace(pre).push(seq![c]));
            assert forall|m: int| 0 <= m < spans@.len() implies {
                &&& spans@[m].0 <= spans@[m].1 <= i + 1
                &&& s@.subrange(spans@[m].0 as int, spans@[m].1 as int)
                    == #[trigger] split_whitespace(post)[m]
            } by {
                if m < old_spans.len() {
                    assert(s@.subrange(old_spans[m].0 as int, old_spans[m].1 as int)
                        == split_whitespace(pre)[m]);
                }
            }
        }
        i = i + 1;
    }
    assert(s@.take(n as int) =~= s@);
    assert(split_whitespace(s@.take(n as int)) == split_whitespace(s@));
    spans
}

/// `p` occurs in `s` starting at index `i`.
pub open spec fn occurs_at(s: Seq<char>, p: Seq<char>, i: int) -> bool {
    0 <= i && i + p.len() <= s.len() && s.subrange(i, i + p.len()) == p
}

/// `s` begins with `p`.
pub open spec fn starts_with(s: Seq<char>, p: Seq<char>) -> bool {
    occurs_at(s, p, 0)
}

/// `p` occurs somewhere in `s`.
pub open spec fn contains(s: Seq<char>, p: Seq<char>) -> bool {
    exists|i: int| #[trigger] occurs_at(s, p, i)
}

/// Whether `p` occurs in `s` at index `i`.
pub fn matches_at(s: &Vec<char>, p: &Vec<char>, i: usize) -> (r: bool)
    ensures
        r == occurs_at(s@, p@, i as int),
{
    if i > s.len() || p.len() > s.len() - i {
        return false;
    }
    let mut j: usize = 0;
    while j < p.len()
        invariant
            s@.len() <= usize::MAX,
            i + p@.len() <= s@.len(),
            j <= p@.len(),
            forall|k: int| 0 <= k < j ==> s@[i + k] == p@[k],
        decreases p@.len() - j,
    {
        if s[i + j] != p[j] {
            assert(s@.subrange(i as int, i + p@.len())[j as int] != p@[j as int]);
            return false;
        }
        j = j + 1;
    }
    assert(s@.subrange(i as int, i + p@.len()) =~= p@);
    true
}

/// `str::starts_with` on string slices.
pub fn str_starts_with(s: &str, p: &str) -> (r: bool)
    ensures
        r == starts_with(s@, p@),
{
    let sv = chars_of(s);
    let pv = chars_of(p);
    matches_at(&sv, &pv, 0)
}

/// `str::contains` on string slices.
pub fn str_contains(s: &str, p: &str) -> (r: bool)
    ensures
        r == contains(s@, p@),
{
    let sv = chars_of(s);
    let pv = chars_of(p);
    let n = sv.len();
    let mut i: usize = 0;
    while i < n
        invariant
            n == s@.len(),
            sv@ == s@,
            pv@ == p@,
            i <= n,
            forall|k: int| 0 <= k < i ==> !#[trigger] occurs_at(s@, p@, k),
        decreases n - i,
    {
        if matches_at(&sv, &pv, i) {
            return true;
        }
        i = i + 1;
    }
    if matches_at(&sv, &pv, n) {
        return true;
    }
    assert forall|k: int| !#[trigger] occurs_at(s@, p@, k) by {
        if 0 <= k && k < n {
        } else if k == n {
        }
    }
    false
}

/// String slice equality.
pub fn str_eq(a: &str, b: &str) -> (r: bool)
    ensures
        r == (a@ == b@),
{
    let av = chars_of(a);
    let bv = chars_of(b);
    if av.len() != bv.len() {
        return false;
    }
    let r = matches_at(&av, &bv, 0);
    proof {
        if r {
            assert(a@.subrange(0, b@.len() as int) =~= a@);
        } else {
            assert(a@.subrange(0, b@.len() as int) =~= a@);
        }
    }
    r
}

/// The decimal digits `0` to `9`.
pub open spec fn digit_char(d: int) -> char {
    seq!['0', '1', '2', '3', '4', '5', '6', '7', '8', '9'][d]
}

/// The decimal representation of a natural number, without leading zeros.
pub open spec fn nat_decimal(n: nat) -> Seq<char>
    decreases n,
{
    if n < 10 {
        seq![digit_char(n as int)]
    } else {
        nat_decimal(n / 10).push(digit_char((n % 10) as int))
    }
}

/// The decimal representation of an integer, with a `-` before negative ones,
/// as `Display` writes integers.
pub open spec fn int_decimal(v: int) -> Seq<char> {
    if v < 0 {
        seq!['-'] + nat_decimal((-v) as nat)
    } else {
        nat_decimal(v as nat)
    }
}

fn digit_str(d: u64) -> (r: &'static str)
    requires
        d < 10,
    ensures
        r@ == seq![digit_char(d as int)],
{
    proof {
        reveal_strlit("0");
        reveal_strlit("1");
        reveal_strlit("2");
        reveal_strlit("3");
        reveal_strlit("4");
        reveal_strlit("5");
        reveal_strlit("6");
        reveal_strlit("7");
        reveal_strlit("8");
        reveal_strlit("9");
    }
    let r = if d == 0 {
        "0"
    } else if d == 1 {
        "1"
    } else if d == 2 {
        "2"
    } else if d == 3 {
        "3"
    } else if d == 4 {
        "4"
    } else if d == 5 {
        "5"
    } else if d == 6 {
        "6"
    } else if d == 7 {
        "7"
    } else if d == 8 {
        "8"
    } else {
        "9"
    };
    assert(r@ =~= seq![digit_char(d as int)]);
    r
}

/// Appends the decimal digits of `n` to `out`.
pub fn push_decimal(out: &mut String, n: u64)
    ensures
        final(out)@ == old(out)@ + nat_decimal(n as nat),
    decreases n,
{
    if n >= 10 {
        push_decimal(out, n / 10);
    }
    out.append(digit_str(n % 10));
    proof {
        if n >= 10 {
            assert(old(out)@ + nat_decimal((n / 10) as nat) + seq![digit_char((n % 10) as int)]
                =~= old(out)@ + nat_decimal(n as nat));
        } else {
            assert(old(out)@ + seq![digit_char((n % 10) as int)] =~= old(out)@ + nat_decimal(
                n as nat,
            ));
        }
    }
}

/// Appends `v` in decimal to `out`, as `format!("{}", v)` writes it.
pub fn push_int_decimal(out: &mut String, v: i64)
    ensures
        final(out)@ == old(out)@ + int_decimal(v as int),
{
    if v < 0 {
        proof {
            reveal_strlit("-");
        }
        out.append("-");
        let m: u64 = (0i128 - (v as i128)) as u64;
        push_decimal(out, m);
        assert(old(out)@ + seq!['-'] + nat_decimal(m as nat) =~= old(out)@ + int_decimal(
            v as int,
        ));
    } else {
        push_decimal(out, v as u64);
    }
}

/// A decimal digit.
pub open spec fn is_digit(c: char) -> bool {
    '0' <= c <= '9'
}

/// The value of a decimal digit.
pub open spec fn digit_value(c: char) -> int {
    (c as int) - ('0' as int)
}

pub open spec fn all_digits(s: Seq<char>) -> bool {
    forall|i: int| 0 <= i < s.len() ==> is_digit(#[trigger] s[i])
}

/// The value of a run of decimal digits.
pub open spec fn digits_value(s: Seq<char>) -> int
    decreases s.len(),
{
    if s.len() == 0 {
        0
    } else {
        10 * digits_value(s.drop_last()) + digit_value(s.last())
    }
}

/// The integer that `s` writes: an optional `+` or `-`, then one or more
/// decimal digits.
pub open spec fn parse_int(s: Seq<char>) -> Option<int> {
    if s.len() > 0 && (s[0] == '+' || s[0] == '-') {
        let d = s.drop_first();
        if d.len() > 0 && all_digits(d) {
            Some(
                if s[0] == '-' {
                    -digits_value(d)
                } else {
                    digits_value(d)
                },
            )
        } else {
            None
        }
    } else if s.len() > 0 && all_digits(s) {
        Some(digits_value(s))
    } else {
        None
    }
}

/// What `str::parse::<i32>` accepts, and the value it gives.
pub open spec fn parse_i32(s: Seq<char>) -> Option<i32> {
    match parse_int(s) {
        Some(v) => if i32::MIN <= v <= i32::MAX {
            Some(v as i32)
        } else {
            None
        },
        None => None,
    }
}

proof fn lemma_digits_value_nonneg(s: Seq<char>)
    requires
        all_digits(s),
    ensures
        digits_value(s) >= 0,
    decreases s.len(),
{
    if s.len() > 0 {
        lemma_digits_value_nonneg(s.drop_last());
        assert(is_digit(s[s.len() - 1]));
    }
}

/// The value of the digits `s[from..]`, or `None` when it exceeds `2^31`
/// or a character is not a digit.
fn digits_from(s: &Vec<char>, from: usize) -> (r: Option<u64>)
    requires
        from <= s@.len(),
    ensures
        match r {
            Some(v) => all_digits(s@.skip(from as int)) && v == digits_value(s@.skip(from as int))
                && v <= 0x8000_0000,
            None => !all_digits(s@.skip(from as int)) || digits_value(s@.skip(from as int))
                > 0x8000_0000,
        },
{
    let n = s.len();
    let mut acc: u64 = 0;
    let mut over = false;
    let mut j: usize = from;
    let ghost d = s@.skip(from as int);
    while j < n
        invariant
            n == s@.len(),
            from <= j <= n,
            d == s@.skip(from as int),
            all_digits(d.take(j - from)),
            !over ==> acc == digits_value(d.take(j - from)) && acc <= 0x8000_0000,
            over ==> digits_value(d.take(j - from)) > 0x8000_0000,
        decreases n - j,
    {
        let c = s[j];
        let ghost pre = d.take(j - from);
        let ghost post = d.take(j + 1 - from);
        assert(post.drop_last() =~= pre);
        assert(post.last() == c);
        if !('0' <= c && c <= '9') {
            proof {
                assert(!is_digit(d[j - from]));
            }
            return None;
        }
        assert(all_digits(post));
        proof {
            lemma_digits_value_nonneg(pre);
        }
        if !over {
            let dv: u64 = (c as u64) - ('0' as u64);
            acc = acc * 10 + dv;
            if acc > 0x8000_0000 {
                over = true;
            }
        }
        j = j + 1;
    }
    assert(d.take(n - from) =~= d);
    if over {
        None
    } else {
        Some(acc)
    }
}

/// `str::parse::<i32>`.
pub fn parse_i32_chars(s: &Vec<char>) -> (r: Option<i32>)
    ensures
        r == parse_i32(s@),
{
    let n = s.len();
    if n == 0 {
        return None;
    }
    let c0 = s[0];
    if c0 == '+' || c0 == '-' {
        if n == 1 {
            return None;
        }
        assert(s@.skip(1) =~= s@.drop_first());
        match digits_from(s, 1) {
            Some(v) => {
                if c0 == '-' {
                    let neg: i64 = 0 - (v as i64);
                    Some(neg as i32)
                } else if v <= 0x7fff_ffff {
                    Some(v as i32)
                } else {
                    None
                }
            },
            None => None,
        }
    } else {
        assert(s@.skip(0) =~= s@);
        match digits_from(s, 0) {
            Some(v) => {
                if v <= 0x7fff_ffff {
                    Some(v as i32)
                } else {
                    None
                }
            },
            None => None,
        }
    }
}

/// ASCII lowercase of one character.
pub open spec fn ascii_lower(c: char) -> char {
    if 'A' <= c <= 'Z' {
        ((c as u32) + 32) as char
    } else {
        c
    }
}

/// What `str::to_lowercase` gives on a string that is not all ASCII.
pub uninterp spec fn unicode_lowercase(s: Seq<char>) -> Seq<char>;

/// What `str::to_lowercase` gives: on ASCII text, each of `A`-`Z` becomes
/// its lowercase letter and every other character stays.
pub open spec fn lowercase(s: Seq<char>) -> Seq<char> {
    if vstd::utf8::is_ascii_chars(s) {
        s.map_values(|c: char| ascii_lower(c))
    } else {
        unicode_lowercase(s)
    }
}

/// Calls `str::to_lowercase`. Claimed of it: on all-ASCII input the result
/// maps `A`-`Z` to `a`-`z` and keeps every other character; on other input
/// the result is a function of the input alone, and nothing more is said.
#[verifier::external_body]
pub(crate) fn to_lowercase(s: &str) -> (r: String)
    ensures
        vstd::utf8::is_ascii_chars(s@) ==> r@ == s@.map_values(|c: char| ascii_lower(c)),
        !vstd::utf8::is_ascii_chars(s@) ==> r@ == unicode_lowercase(s@),
{
    s.to_lowercase()
}

} // verus!
