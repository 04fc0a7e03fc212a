//! Properties that relate several functions of the library.
use vstd::prelude::*;

use crate::client::{
    daemon_reply, error_tag, fan_mode_command_text, performance_mode_command_text,
    status_command_text, needle_mode_auto, needle_mode_max, needle_performance,
    needle_power_saver, ok_tag, status_fan_mode, status_performance_mode,
};
use crate::daemon::{after_fan_mode_set, fan_target, is_high, is_low, profile_for, profile_mode, DaemonState};
use crate::monitor::{
    after_write, auto_rewrite_due, interval_passed, max_reading, sensor_temperature, sensor_value,
    tick, write_target, FanWrite, SensorError,
};
use crate::protocol::{
    request_effect, shown_performance, command_of, word_set, word_set_performance, word_status, Command, degrees_text, error_prefix, framed, label_actual, label_mode, label_performance, label_temp,
    ok_prefix, status_text, temp_text, unknown_text,
};
use crate::text::{
    ascii_lower, lemma_split_append_word, lemma_split_two, lemma_split_words, lemma_trim_word,
    no_white_space, lowercase, split_whitespace, contains, digit_char, int_decimal, is_white_space, nat_decimal, occurs_at, starts_with, trim,
    trim_end, trim_start,
};
use crate::types::{
    fan_mode_key, parse_fan_mode, parse_performance_mode, fan_mode_text, hardware_mode_text, performance_mode_text, FanMode, HardwareFanMode,
    PerformanceMode,
};

verus! {

/// `s` holds `c1` directly followed by `c2` somewhere.
spec fn has_pair(s: Seq<char>, c1: char, c2: char) -> bool {
    exists|j: int| 0 <= j && j + 1 < s.len() && #[trigger] s[j] == c1 && s[j + 1] == c2
}

proof fn lemma_no_pair_concat(a: Seq<char>, b: Seq<char>, c1: char, c2: char)
    requires
        !has_pair(a, c1, c2),
        !has_pair(b, c1, c2),
        a.len() > 0 && b.len() > 0 ==> !(a.last() == c1 && b[0] == c2),
    ensures
        !has_pair(a + b, c1, c2),
{
    let s = a + b;
    if has_pair(s, c1, c2) {
        let j = choose|j: int| 0 <= j && j + 1 < s.len() && #[trigger] s[j] == c1 && s[j + 1] == c2;
        if j + 1 < a.len() {
            assert(a[j] == c1 && a[j + 1] == c2);
        } else if j + 1 == a.len() {
            assert(a.last() == c1 && b[0] == c2);
        } else {
            assert(b[j - a.len()] == c1 && b[j - a.len() + 1] == c2);
        }
    }
}

/// No character of `s` is `c`.
spec fn char_free(s: Seq<char>, c: char) -> bool {
    forall|j: int| 0 <= j < s.len() ==> #[trigger] s[j] != c
}

proof fn lemma_char_free_no_pair(s: Seq<char>, c1: char, c2: char)
    requires
        char_free(s, c1),
    ensures
        !has_pair(s, c1, c2),
{
}

proof fn lemma_nat_decimal_digits(n: nat)
    ensures
        forall|j: int|
            0 <= j < nat_decimal(n).len() ==> '0' <= #[trigger] nat_decimal(n)[j] <= '9',
        nat_decimal(n).len() > 0,
    decreases n,
{
    if n >= 10 {
        lemma_nat_decimal_digits(n / 10);
        let d = (n % 10) as int;
        assert('0' <= digit_char(d) <= '9');
    } else {
        assert('0' <= digit_char(n as int) <= '9');
    }
}

/// The temperature part of the status holds no `M`, `P` or whitespace, and
/// ends in a non-whitespace character.
proof fn lemma_temp_text_chars(temp: Option<i32>)
    ensures
        char_free(temp_text(temp), 'M'),
        char_free(temp_text(temp), 'P'),
        temp_text(temp).len() > 0,
        !is_white_space(temp_text(temp).last()),
{
    match temp {
        Some(t) => {
            let v = crate::protocol::div_toward_zero(t as int, 1000);
            let n: nat = if v < 0 {
                (-v) as nat
            } else {
                v as nat
            };
            lemma_nat_decimal_digits(n);
            let d = int_decimal(v);
            assert(forall|j: int| 0 <= j < d.len() ==> ('0' <= #[trigger] d[j] <= '9' || d[j] == '-'));
            let x = d + degrees_text();
            assert forall|j: int| 0 <= j < x.len() implies #[trigger] x[j] != 'M' && x[j] != 'P' by {
                if j < d.len() {
                    assert(x[j] == d[j]);
                }
            }
            assert(x.last() == 'C');
        },
        None => {
            assert(temp_text(temp) == unknown_text());
        },
    }
}

/// The status line with an arbitrary temperature part `x`.
spec fn status_with(u: FanMode, a: HardwareFanMode, f: PerformanceMode, x: Seq<char>) -> Seq<char> {
    label_mode() + fan_mode_text(u) + label_actual() + hardware_mode_text(a) + label_performance()
        + performance_mode_text(f) + label_temp() + x
}

/// What a temperature part is like: no `M`, no `P`, and it ends in a
/// non-whitespace character.
spec fn plain_tail(x: Seq<char>) -> bool {
    &&& char_free(x, 'M')
    &&& char_free(x, 'P')
    &&& x.len() > 0
    &&& !is_white_space(x.last())
}

/// What follows the mode in the status line never holds `M` directly
/// followed by `o`.
proof fn lemma_status_tail_no_mode(
    user: FanMode,
    actual: HardwareFanMode,
    perf: PerformanceMode,
    x: Seq<char>,
)
    requires
        plain_tail(x),
    ensures
        !has_pair(
            fan_mode_text(user) + label_actual() + hardware_mode_text(actual) + label_performance()
                + performance_mode_text(perf) + label_temp() + x,
            'M',
            'o',
        ),
{
    let u = fan_mode_text(user);
    let la = label_actual();
    let a = hardware_mode_text(actual);
    let lp = label_performance();
    let f = performance_mode_text(perf);
    let lt = label_temp();
    assert(!has_pair(u, 'M', 'o'));
    assert(!has_pair(la, 'M', 'o'));
    assert(!has_pair(a, 'M', 'o'));
    assert(char_free(lp, 'M'));
    assert(char_free(f, 'M'));
    assert(char_free(lt, 'M'));
    lemma_char_free_no_pair(lp, 'M', 'o');
    lemma_char_free_no_pair(f, 'M', 'o');
    lemma_char_free_no_pair(lt, 'M', 'o');
    lemma_char_free_no_pair(x, 'M', 'o');
    lemma_no_pair_concat(u, la, 'M', 'o');
    lemma_no_pair_concat(u + la, a, 'M', 'o');
    lemma_no_pair_concat(u + la + a, lp, 'M', 'o');
    lemma_no_pair_concat(u + la + a + lp, f, 'M', 'o');
    lemma_no_pair_concat(u + la + a + lp + f, lt, 'M', 'o');
    lemma_no_pair_concat(u + la + a + lp + f + lt, x, 'M', 'o');
}

/// A needle beginning `Mo` occurs in the status line only at its start.
proof fn lemma_mode_needle_at_start(
    user: FanMode,
    actual: HardwareFanMode,
    perf: PerformanceMode,
    x: Seq<char>,
    p: Seq<char>,
    i: int,
)
    requires
        plain_tail(x),
        p.len() >= 2,
        p[0] == 'M',
        p[1] == 'o',
        occurs_at(status_with(user, actual, perf, x), p, i),
    ensures
        i == 0,
{
    let t = status_with(user, actual, perf, x);
    let r = fan_mode_text(user) + label_actual() + hardware_mode_text(actual) + label_performance()
        + performance_mode_text(perf) + label_temp() + x;
    assert(t =~= label_mode() + r);
    lemma_status_tail_no_mode(user, actual, perf, x);
    assert(t.subrange(i, i + p.len())[0] == t[i]);
    assert(t.subrange(i, i + p.len())[1] == t[i + 1]);
    if i >= 6 {
        assert(r[i - 6] == 'M' && r[i - 6 + 1] == 'o');
    } else if i > 0 {
        assert(t[i] == label_mode()[i]);
    }
}

/// A needle beginning `P` occurs in the status line only where the
/// performance label's name begins.
proof fn lemma_performance_needle_position(
    user: FanMode,
    actual: HardwareFanMode,
    perf: PerformanceMode,
    x: Seq<char>,
    p: Seq<char>,
    i: int,
)
    requires
        plain_tail(x),
        p.len() >= 1,
        p[0] == 'P',
        occurs_at(status_with(user, actual, perf, x), p, i),
    ensures
        i == (label_mode() + fan_mode_text(user) + label_actual() + hardware_mode_text(
            actual,
        )).len() + 2,
{
    let t = status_with(user, actual, perf, x);
    let a1 = label_mode() + fan_mode_text(user) + label_actual() + hardware_mode_text(actual);
    let lp = label_performance();
    let f = performance_mode_text(perf);
    let lt = label_temp();
    assert(t =~= a1 + lp + f + lt + x);
    assert(char_free(a1, 'P')) by {
        assert forall|j: int| 0 <= j < a1.len() implies #[trigger] a1[j] != 'P' by {
            let l1 = label_mode();
            let u = fan_mode_text(user);
            let l2 = label_actual();
            let a = hardware_mode_text(actual);
            if j < l1.len() {
                assert(a1[j] == l1[j]);
            } else if j < l1.len() + u.len() {
                assert(a1[j] == u[j - l1.len()]);
            } else if j < l1.len() + u.len() + l2.len() {
                assert(a1[j] == l2[j - l1.len() - u.len()]);
            } else {
                assert(a1[j] == a[j - l1.len() - u.len() - l2.len()]);
            }
        }
    }
    assert(t.subrange(i, i + p.len())[0] == t[i]);
    assert(t[i] == 'P');
    if i < a1.len() {
        assert(t[i] == a1[i]);
    } else if i < a1.len() + lp.len() {
        assert(t[i] == lp[i - a1.len()]);
    } else if i < a1.len() + lp.len() + f.len() {
        assert(t[i] == f[i - a1.len() - lp.len()]);
    } else if i < a1.len() + lp.len() + f.len() + lt.len() {
        assert(t[i] == lt[i - a1.len() - lp.len() - f.len()]);
    } else {
        assert(t[i] == x[i - a1.len() - lp.len() - f.len() - lt.len()]);
    }
}

/// Trimming the framed reply gives back the status line.
proof fn lemma_trim_framed(t: Seq<char>)
    requires
        t.len() > 0,
        !is_white_space(t[0]),
        !is_white_space(t.last()),
    ensures
        starts_with(ok_prefix() + t + seq!['\n'], ok_tag()),
        trim((ok_prefix() + t + seq!['\n']).skip(3)) == t,
{
    let f = ok_prefix() + t + seq!['\n'];
    assert(f.subrange(0, 3) =~= ok_tag());
    let s = f.skip(3);
    assert(s =~= seq![' '] + t + seq!['\n']);
    assert(is_white_space(' '));
    assert(s.drop_first() =~= t + seq!['\n']);
    assert(trim_start(s) == trim_start(t + seq!['\n']));
    assert((t + seq!['\n'])[0] == t[0]);
    assert(trim_start(t + seq!['\n']) == t + seq!['\n']);
    assert(is_white_space('\n'));
    assert((t + seq!['\n']).drop_last() =~= t);
    assert(trim_end(t + seq!['\n']) == trim_end(t));
    assert(trim_end(t) == t);
}

proof fn lemma_subrange_left(a: Seq<char>, b: Seq<char>, i: int, j: int)
    requires
        0 <= i <= j <= a.len(),
    ensures
        (a + b).subrange(i, j) == a.subrange(i, j),
{
    assert((a + b).subrange(i, j) =~= a.subrange(i, j));
}

proof fn lemma_subrange_right(a: Seq<char>, b: Seq<char>, i: int, j: int)
    requires
        a.len() <= i <= j <= a.len() + b.len(),
    ensures
        (a + b).subrange(i, j) == b.subrange(i - a.len(), j - a.len()),
{
    assert((a + b).subrange(i, j) =~= b.subrange(i - a.len(), j - a.len()));
}

proof fn lemma_subrange_across(a: Seq<char>, b: Seq<char>, k: int)
    requires
        0 <= k <= b.len(),
    ensures
        (a + b).subrange(0, a.len() + k) == a + b.subrange(0, k),
{
    assert((a + b).subrange(0, a.len() + k) =~= a + b.subrange(0, k));
}

/// The status line begins with `Mode: ` and the user mode's name.
proof fn lemma_status_head(user: FanMode, actual: HardwareFanMode, perf: PerformanceMode, x: Seq<char>, k: int)
    requires
        0 <= k <= fan_mode_text(user).len(),
    ensures
        status_with(user, actual, perf, x).subrange(0, 6 + k) == label_mode() + fan_mode_text(
            user,
        ).subrange(0, k),
{
    let t = status_with(user, actual, perf, x);
    let u = fan_mode_text(user);
    let rest = label_actual() + hardware_mode_text(actual) + label_performance()
        + performance_mode_text(perf) + label_temp() + x;
    let r = u + rest;
    assert(t =~= label_mode() + r);
    lemma_subrange_across(label_mode(), r, k);
    lemma_subrange_left(u, rest, 0, k);
}

/// `Mode: Max` occurs in the status line exactly when the user mode is Max.
proof fn lemma_status_mode_max(user: FanMode, actual: HardwareFanMode, perf: PerformanceMode, x: Seq<char>)
    requires
        plain_tail(x),
    ensures
        contains(status_with(user, actual, perf, x), needle_mode_max()) <==> user == FanMode::Max,
{
    let t = status_with(user, actual, perf, x);
    let m = needle_mode_max();
    let u = fan_mode_text(user);
    lemma_status_head(user, actual, perf, x, 3);
    let head = t.subrange(0, 9);
    assert(head == label_mode() + u.subrange(0, 3));
    assert(head[6] == u[0]);
    if user == FanMode::Max {
        assert(u.subrange(0, 3) =~= u);
        assert(head =~= m);
        assert(occurs_at(t, m, 0));
    } else if contains(t, m) {
        let i = choose|i: int| #[trigger] occurs_at(t, m, i);
        lemma_mode_needle_at_start(user, actual, perf, x, m, i);
        assert(head[6] == m[6]);
    }
}

/// `Mode: Auto` occurs in the status line exactly when the user mode is Auto.
proof fn lemma_status_mode_auto(user: FanMode, actual: HardwareFanMode, perf: PerformanceMode, x: Seq<char>)
    requires
        plain_tail(x),
    ensures
        contains(status_with(user, actual, perf, x), needle_mode_auto()) <==> user == FanMode::Auto,
{
    let t = status_with(user, actual, perf, x);
    let m = needle_mode_auto();
    let u = fan_mode_text(user);
    if user == FanMode::Max {
        lemma_status_head(user, actual, perf, x, 3);
        let head = t.subrange(0, 9);
        assert(head == label_mode() + u.subrange(0, 3));
        assert(head[6] == u[0]);
        if contains(t, m) {
            let i = choose|i: int| #[trigger] occurs_at(t, m, i);
            lemma_mode_needle_at_start(user, actual, perf, x, m, i);
            assert(t.subrange(0, 10)[6] == t[6]);
            assert(head[6] == t[6]);
        }
    } else {
        lemma_status_head(user, actual, perf, x, 4);
        let head = t.subrange(0, 10);
        assert(head == label_mode() + u.subrange(0, 4));
        assert(head[6] == u[0]);
        if user == FanMode::Auto {
            assert(u.subrange(0, 4) =~= u);
            assert(head =~= m);
            assert(occurs_at(t, m, 0));
        } else if contains(t, m) {
            let i = choose|i: int| #[trigger] occurs_at(t, m, i);
            lemma_mode_needle_at_start(user, actual, perf, x, m, i);
            assert(head[6] == m[6]);
        }
    }
}

proof fn lemma_status_fan_mode(user: FanMode, actual: HardwareFanMode, perf: PerformanceMode, x: Seq<char>)
    requires
        plain_tail(x),
    ensures
        status_fan_mode(status_with(user, actual, perf, x)) == user,
{
    lemma_status_mode_max(user, actual, perf, x);
    lemma_status_mode_auto(user, actual, perf, x);
}

/// Where the performance mode's name sits in the status line.
spec fn performance_at(user: FanMode, actual: HardwareFanMode) -> int {
    (label_mode() + fan_mode_text(user) + label_actual() + hardware_mode_text(actual)).len() as int + 2
}

/// The 24 characters from `Performance: ` on.
proof fn lemma_status_performance_window(
    user: FanMode,
    actual: HardwareFanMode,
    perf: PerformanceMode,
    x: Seq<char>,
)
    requires
        plain_tail(x),
    ensures
        ({
            let t = status_with(user, actual, perf, x);
            let k = performance_at(user, actual);
            let f = performance_mode_text(perf);
            &&& k + 24 <= t.len()
            &&& t.subrange(k, k + 24)[13] == f[0]
            &&& t.subrange(k, k + 24)[14] == f[1]
            &&& f.len() == 11 ==> t.subrange(k, k + 24) == label_performance().subrange(2, 15) + f
        }),
{
    let t = status_with(user, actual, perf, x);
    let a1 = label_mode() + fan_mode_text(user) + label_actual() + hardware_mode_text(actual);
    let lp = label_performance();
    let k = performance_at(user, actual);
    let f = performance_mode_text(perf);
    let rest = label_temp() + x;
    let b = lp + (f + rest);
    assert(t =~= a1 + b);
    lemma_subrange_right(a1, b, k, k + 24);
    let w = t.subrange(k, k + 24);
    assert(w == b.subrange(2, 26));
    assert(b.subrange(2, 26) =~= lp.subrange(2, 15) + (f + rest).subrange(0, 11));
    lemma_subrange_left(f, rest, 0, 8);
    assert(w[13] == f[0]);
    assert(w[14] == f[1]);
    if f.len() == 11 {
        lemma_subrange_left(f, rest, 0, 11);
        assert(f.subrange(0, 11) =~= f);
    }
}

/// A performance needle occurs in the status line exactly when it names
/// the shown performance mode.
proof fn lemma_status_performance_needle(
    user: FanMode,
    actual: HardwareFanMode,
    perf: PerformanceMode,
    x: Seq<char>,
    named: PerformanceMode,
)
    requires
        plain_tail(x),
        named != PerformanceMode::Balanced,
    ensures
        contains(
            status_with(user, actual, perf, x),
            label_performance().subrange(2, 15) + performance_mode_text(named),
        ) <==> perf == named,
{
    let t = status_with(user, actual, perf, x);
    let k = performance_at(user, actual);
    let f = performance_mode_text(perf);
    let n = performance_mode_text(named);
    let p = label_performance().subrange(2, 15) + n;
    lemma_status_performance_window(user, actual, perf, x);
    let w = t.subrange(k, k + 24);
    assert(p.len() == 24);
    assert(p[0] == 'P');
    if perf == named {
        assert(occurs_at(t, p, k));
    } else if contains(t, p) {
        let i = choose|i: int| #[trigger] occurs_at(t, p, i);
        lemma_performance_needle_position(user, actual, perf, x, p, i);
        assert(w == p);
        assert(w[13] == p[13]);
        assert(w[14] == p[14]);
    }
}

proof fn lemma_status_performance(user: FanMode, actual: HardwareFanMode, perf: PerformanceMode, x: Seq<char>)
    requires
        plain_tail(x),
    ensures
        status_performance_mode(status_with(user, actual, perf, x)) == perf,
{
    lemma_performance_needles();
    lemma_status_performance_needle(user, actual, perf, x, PerformanceMode::Performance);
    lemma_status_performance_needle(user, actual, perf, x, PerformanceMode::PowerSaver);
}

proof fn lemma_performance_needles()
    ensures
        label_performance().subrange(2, 15) + performance_mode_text(PerformanceMode::Performance)
            == needle_performance(),
        label_performance().subrange(2, 15) + performance_mode_text(PerformanceMode::PowerSaver)
            == needle_power_saver(),
{
    assert(label_performance().subrange(2, 15) + performance_mode_text(PerformanceMode::Performance)
        =~= needle_performance());
    assert(label_performance().subrange(2, 15) + performance_mode_text(PerformanceMode::PowerSaver)
        =~= needle_power_saver());
}

/// What a client reads from the daemon's status reply is what the daemon
/// reports: the text after `OK:` is the status line itself, and from it the
/// client recovers the fan mode the user asked for and the performance mode
/// the daemon shows.
pub proof fn status_read_back(
    user: FanMode,
    actual: HardwareFanMode,
    perf: PerformanceMode,
    temp: Option<i32>,
)
    ensures
        daemon_reply(framed(Ok(status_text(user, actual, perf, temp)))) == Some(
            Ok::<Seq<char>, Seq<char>>(status_text(user, actual, perf, temp)),
        ),
        status_fan_mode(status_text(user, actual, perf, temp)) == user,
        status_performance_mode(status_text(user, actual, perf, temp)) == perf,
{
    let x = temp_text(temp);
    lemma_temp_text_chars(temp);
    assert(plain_tail(x));
    let t = status_with(user, actual, perf, x);
    assert(status_text(user, actual, perf, temp) == t);
    assert(t[0] == 'M');
    assert(t.last() == x.last());
    lemma_trim_framed(t);
    lemma_status_fan_mode(user, actual, perf, x);
    lemma_status_performance(user, actual, perf, x);
}

proof fn lemma_trim_start_push(s: Seq<char>, c: char)
    requires
        is_white_space(c),
    ensures
        trim_start(s + seq![c]) == if trim_start(s).len() > 0 {
            trim_start(s) + seq![c]
        } else {
            Seq::<char>::empty()
        },
        trim_start(s).len() == 0 ==> trim_start(s) == Seq::<char>::empty(),
    decreases s.len(),
{
    if s.len() == 0 {
        assert(s + seq![c] =~= seq![c]);
        assert(seq![c].drop_first() =~= Seq::<char>::empty());
        assert(trim_start(seq![c]) == trim_start(Seq::<char>::empty()));
    } else {
        assert((s + seq![c]).drop_first() =~= s.drop_first() + seq![c]);
        assert((s + seq![c])[0] == s[0]);
        lemma_trim_start_push(s.drop_first(), c);
        if is_white_space(s[0]) {
            assert(trim_start(s + seq![c]) == trim_start(s.drop_first() + seq![c]));
            assert(trim_start(s) == trim_start(s.drop_first()));
        } else {
            assert(trim_start(s + seq![c]) == s + seq![c]);
            assert(trim_start(s) == s);
        }
    }
}

proof fn lemma_trim_end_ws(s: Seq<char>, c: char)
    requires
        is_white_space(c),
    ensures
        trim_end(s + seq![c]) == trim_end(s),
{
    assert((s + seq![c]).drop_last() =~= s);
}

/// Trimming drops a whitespace character added on either side.
proof fn lemma_trim_around(s: Seq<char>, a: char, b: char)
    requires
        is_white_space(a),
        is_white_space(b),
    ensures
        trim(seq![a] + s + seq![b]) == trim(s),
{
    let x = seq![a] + s + seq![b];
    assert(x.drop_first() =~= s + seq![b]);
    assert(trim_start(x) == trim_start(s + seq![b]));
    lemma_trim_start_push(s, b);
    if trim_start(s).len() > 0 {
        lemma_trim_end_ws(trim_start(s), b);
    }
}

/// The text a client reads from a reply is the reply the daemon sent, with
/// surrounding whitespace removed; success and error stay apart.
pub proof fn reply_read_back(reply: Result<Seq<char>, Seq<char>>)
    ensures
        daemon_reply(framed(reply)) == match reply {
            Ok(s) => Some(Ok::<Seq<char>, Seq<char>>(trim(s))),
            Err(e) => Some(Err::<Seq<char>, Seq<char>>(trim(e))),
        },
{
    assert(is_white_space(' '));
    assert(is_white_space('\n'));
    match reply {
        Ok(s) => {
            let f = ok_prefix() + s + seq!['\n'];
            assert(f.subrange(0, 3) =~= ok_tag());
            assert(f.skip(3) =~= seq![' '] + s + seq!['\n']);
            lemma_trim_around(s, ' ', '\n');
        },
        Err(e) => {
            let f = error_prefix() + e + seq!['\n'];
            assert(f.subrange(0, 3) =~= seq!['E', 'R', 'R']);
            assert(f.subrange(0, 6) =~= error_tag());
            assert(f.skip(6) =~= seq![' '] + e + seq!['\n']);
            lemma_trim_around(e, ' ', '\n');
        },
    }
}

proof fn lemma_lowercase_ascii_lower(s: Seq<char>)
    requires
        forall|i: int| 0 <= i < s.len() ==> 'a' <= #[trigger] s[i] <= 'z' || s[i] == '-' || s[i]
            == '_',
    ensures
        lowercase(s) == s,
{
    assert(vstd::utf8::is_ascii_chars(s));
    assert(s.map_values(|c: char| ascii_lower(c)) =~= s);
}

proof fn lemma_fan_mode_key(mode: FanMode)
    ensures
        lowercase(fan_mode_text(mode)) == fan_mode_key(mode),
        lowercase(fan_mode_key(mode)) == fan_mode_key(mode),
        parse_fan_mode(fan_mode_key(mode)) == Some(mode),
{
    let t = fan_mode_text(mode);
    assert(vstd::utf8::is_ascii_chars(t));
    assert(t.map_values(|c: char| ascii_lower(c)) =~= fan_mode_key(mode));
    lemma_lowercase_ascii_lower(fan_mode_key(mode));
}

proof fn lemma_performance_mode_name(mode: PerformanceMode)
    ensures
        lowercase(performance_mode_text(mode)) == performance_mode_text(mode),
        parse_performance_mode(performance_mode_text(mode)) == Some(mode),
{
    lemma_lowercase_ascii_lower(performance_mode_text(mode));
}

/// The daemon reads each command a client sends as the request the client
/// meant.
pub proof fn commands_read_back(fan: FanMode, performance: PerformanceMode)
    ensures
        command_of(fan_mode_command_text(fan)) == Ok::<Command, Seq<char>>(Command::SetFanMode(fan)),
        command_of(performance_mode_command_text(performance)) == Ok::<Command, Seq<char>>(
            Command::SetPerformanceMode(performance),
        ),
        command_of(status_command_text()) == Ok::<Command, Seq<char>>(Command::Status),
{
    lemma_fan_mode_key(fan);
    lemma_performance_mode_name(performance);
    let k = fan_mode_key(fan);
    assert(fan_mode_command_text(fan) == word_set() + seq![' '] + k);
    lemma_split_two(word_set(), k);
    let p = performance_mode_text(performance);
    assert(performance_mode_command_text(performance) =~= word_set_performance() + seq![' '] + p);
    lemma_split_two(word_set_performance(), p);
    lemma_split_append_word(Seq::<char>::empty(), word_status());
    assert(Seq::<char>::empty() + word_status() =~= status_command_text());
    assert(split_whitespace(Seq::<char>::empty()) =~= Seq::<Seq<char>>::empty());
    assert(Seq::<Seq<char>>::empty().push(word_status()) =~= seq![word_status()]);
}

/// The platform's profile names as the daemon reads them: non-empty and
/// free of whitespace.
pub open spec fn plain_choices(c: [String; 3]) -> bool {
    forall|i: int| 0 <= i < 3 ==> #[trigger] c@[i]@.len() > 0 && no_white_space(c@[i]@)
}

/// The three names differ even when letter case is ignored.
pub open spec fn distinct_choices(c: [String; 3]) -> bool {
    &&& lowercase(c@[0]@) != lowercase(c@[1]@)
    &&& lowercase(c@[0]@) != lowercase(c@[2]@)
    &&& lowercase(c@[1]@) != lowercase(c@[2]@)
}

/// The profile names the daemon takes from the platform's list of choices
/// are non-empty and hold no whitespace.
pub proof fn profile_choices_are_plain(contents: Seq<char>, c: [String; 3])
    requires
        forall|i: int| 0 <= i < 3 ==> #[trigger] c@[i]@ == split_whitespace(contents)[i],
        split_whitespace(contents).len() >= 3,
    ensures
        plain_choices(c),
{
    lemma_split_words(contents);
    assert forall|i: int| 0 <= i < 3 implies #[trigger] c@[i]@.len() > 0 && no_white_space(c@[i]@) by {
        assert(c@[i]@ == split_whitespace(contents)[i]);
    }
}

/// The profile the daemon writes for a performance mode is read back as that
/// mode, when the platform's names, if known, can be told apart.
pub proof fn profile_read_back(mode: PerformanceMode, choices: Option<[String; 3]>)
    requires
        choices matches Some(c) ==> plain_choices(c) && distinct_choices(c),
    ensures
        profile_mode(profile_for(mode, choices), choices) == Some(mode),
{
    match choices {
        Some(c) => {
            let i = crate::daemon::choice_index(mode);
            assert(c@[i]@.len() > 0 && no_white_space(c@[i]@));
            lemma_trim_word(c@[i]@);
        },
        None => {
            let t = performance_mode_text(mode);
            assert(no_white_space(t));
            lemma_trim_word(t);
            lemma_performance_mode_name(mode);
        },
    }
}

/// The fan hardware follows the user's choice: full speed in Max, BIOS
/// control in Bios, and temperature checks run exactly in Auto.
pub open spec fn fan_consistent(s: DaemonState) -> bool {
    &&& s.user_mode == FanMode::Max ==> s.actual_mode == HardwareFanMode::Max
    &&& s.user_mode == FanMode::Bios ==> s.actual_mode == HardwareFanMode::Bios
    &&& s.temp_monitoring_active <==> s.user_mode == FanMode::Auto
}

/// What the user chose, and the settings, are left alone.
pub open spec fn same_choices(s: DaemonState, t: DaemonState) -> bool {
    &&& t.user_mode == s.user_mode
    &&& t.performance_mode == s.performance_mode
    &&& t.performance_profile_choices == s.performance_profile_choices
    &&& t.temp_monitoring_active == s.temp_monitoring_active
    &&& t.config == s.config
}

/// Applying a fan mode leaves the hardware following the user's choice,
/// whatever state the daemon was in, and a full-speed write time is on
/// record exactly in Max mode.
pub proof fn fan_mode_change_is_consistent(
    s: DaemonState,
    mode: FanMode,
    temperature: Option<i32>,
    now: u64,
)
    ensures
        fan_consistent(after_fan_mode_set(s, mode, temperature, now)),
        after_fan_mode_set(s, mode, temperature, now).last_fan_write is Some <==> mode
            == FanMode::Max,
{
}

/// A temperature check, and the outcome of the write it asks for, never
/// change what the user chose, and keep the hardware following it.
pub proof fn check_keeps_choice(
    s: DaemonState,
    temperature: Option<i32>,
    now: u64,
    succeeded: bool,
    later: u64,
)
    ensures
        same_choices(s, tick(s, temperature, now).0),
        fan_consistent(s) ==> fan_consistent(tick(s, temperature, now).0),
        tick(s, temperature, now).1 matches Some(w) ==> {
            &&& same_choices(s, after_write(tick(s, temperature, now).0, w, succeeded, later))
            &&& fan_consistent(s) ==> fan_consistent(
                after_write(tick(s, temperature, now).0, w, succeeded, later),
            )
        },
{
}

/// A client request keeps the hardware following the user's choice.
pub proof fn request_keeps_consistency(s: DaemonState, request: Seq<char>, now: u64)
    requires
        fan_consistent(s),
    ensures
        fan_consistent(request_effect(s, request, now)),
{
}

/// A run of temperature checks at time `now`, with no write carried out:
/// the state after them, and whether any of them asked for a write.
pub open spec fn run_checks(s: DaemonState, temps: Seq<i32>, now: u64) -> (DaemonState, bool)
    decreases temps.len(),
{
    if temps.len() == 0 {
        (s, false)
    } else {
        let (s1, asked) = run_checks(s, temps.drop_last(), now);
        let (s2, w) = tick(s1, Some(temps.last()), now);
        (s2, asked || w is Some)
    }
}

/// In Auto mode with the fans under BIOS control, readings above the high
/// threshold are counted, and full speed is asked for only once
/// `consecutive_high_temp_limit` of them have come in a row.
pub proof fn engage_after_consecutive_highs(s: DaemonState, temps: Seq<i32>, now: u64)
    requires
        s.user_mode == FanMode::Auto,
        s.temp_monitoring_active,
        s.actual_mode == HardwareFanMode::Bios,
        s.consecutive_high_temps == 0,
        temps.len() < u32::MAX,
        forall|i: int| 0 <= i < temps.len() ==> is_high(s.config, #[trigger] temps[i]),
    ensures
        run_checks(s, temps, now).0.consecutive_high_temps == temps.len(),
        same_choices(s, run_checks(s, temps, now).0),
        run_checks(s, temps, now).0.actual_mode == HardwareFanMode::Bios,
        run_checks(s, temps, now).1 <==> temps.len() >= 1 && temps.len()
            >= s.config.consecutive_high_temp_limit,
    decreases temps.len(),
{
    if temps.len() > 0 {
        let init = temps.drop_last();
        assert forall|i: int| 0 <= i < init.len() implies is_high(s.config, #[trigger] init[i]) by {
            assert(init[i] == temps[i]);
        }
        engage_after_consecutive_highs(s, init, now);
        assert(is_high(s.config, temps[temps.len() - 1]));
    }
}

/// In Auto mode with the fans at full speed and no rewrite interval,
/// readings at or below the low threshold are counted, and BIOS control is
/// asked for only once `consecutive_low_temp_limit` of them have come in a row.
pub proof fn release_after_consecutive_lows(s: DaemonState, temps: Seq<i32>, now: u64)
    requires
        s.user_mode == FanMode::Auto,
        s.temp_monitoring_active,
        s.actual_mode == HardwareFanMode::Max,
        s.config.max_fan_write_interval is None,
        s.consecutive_low_temps == 0,
        temps.len() < u32::MAX,
        forall|i: int| 0 <= i < temps.len() ==> is_low(s.config, #[trigger] temps[i]),
    ensures
        run_checks(s, temps, now).0.consecutive_low_temps == temps.len(),
        same_choices(s, run_checks(s, temps, now).0),
        run_checks(s, temps, now).0.actual_mode == HardwareFanMode::Max,
        run_checks(s, temps, now).1 <==> temps.len() >= 1 && temps.len()
            >= s.config.consecutive_low_temp_limit,
    decreases temps.len(),
{
    if temps.len() > 0 {
        let init = temps.drop_last();
        assert forall|i: int| 0 <= i < init.len() implies is_low(s.config, #[trigger] init[i]) by {
            assert(init[i] == temps[i]);
        }
        release_after_consecutive_lows(s, init, now);
        assert(is_low(s.config, temps[temps.len() - 1]));
    }
}

/// A fan mode a client asks for is the one it reads back from the daemon's
/// status afterwards: the daemon reads the client's command as that mode
/// (applying Auto once its temperature reading is in), and the status it
/// then reports names it.
pub proof fn fan_mode_request_read_back(
    s: DaemonState,
    mode: FanMode,
    temperature: Option<i32>,
    now: u64,
    shown: PerformanceMode,
)
    ensures
        ({
            let after = if mode == FanMode::Auto {
                after_fan_mode_set(s, mode, temperature, now)
            } else {
                request_effect(s, fan_mode_command_text(mode), now)
            };
            let reply = framed(Ok(status_text(after.user_mode, after.actual_mode, shown, after.current_temp)));
            &&& daemon_reply(reply) matches Some(Ok(data))
            &&& status_fan_mode(data) == mode
        }),
{
    commands_read_back(mode, PerformanceMode::Balanced);
    let after = if mode == FanMode::Auto {
        after_fan_mode_set(s, mode, temperature, now)
    } else {
        request_effect(s, fan_mode_command_text(mode), now)
    };
    status_read_back(after.user_mode, after.actual_mode, shown, after.current_temp);
}

/// A performance mode a client asks for is the one it reads back from the
/// daemon's status once the profile is written, when the platform's names,
/// if known, can be told apart.
pub proof fn performance_request_read_back(s: DaemonState, mode: PerformanceMode, now: u64)
    requires
        s.performance_profile_choices matches Some(c) ==> plain_choices(c) && distinct_choices(c),
    ensures
        ({
            let after = request_effect(s, performance_mode_command_text(mode), now);
            let written = profile_for(mode, s.performance_profile_choices);
            let shown = shown_performance(after, Some(written));
            let reply = framed(Ok(status_text(after.user_mode, after.actual_mode, shown, after.current_temp)));
            &&& daemon_reply(reply) matches Some(Ok(data))
            &&& status_performance_mode(data) == mode
        }),
{
    commands_read_back(FanMode::Auto, mode);
    profile_read_back(mode, s.performance_profile_choices);
    let after = request_effect(s, performance_mode_command_text(mode), now);
    let written = profile_for(mode, s.performance_profile_choices);
    let shown = shown_performance(after, Some(written));
    status_read_back(after.user_mode, after.actual_mode, shown, after.current_temp);
}

/// An unreadable sensor leaves the state as it was and writes nothing; a
/// reading is kept as read, in millidegrees.
pub proof fn reading_is_recorded(s: DaemonState, temperature: Option<i32>, now: u64)
    ensures
        temperature is None ==> tick(s, temperature, now) == (s, None::<FanWrite>),
        temperature matches Some(t) ==> tick(s, temperature, now).0.current_temp == Some(t),
{
}

/// In Bios mode, in Max mode without a rewrite interval, and in Auto mode
/// while checks are off, a temperature check writes nothing and only
/// records the reading.
pub proof fn quiet_modes_never_write(s: DaemonState, t: i32, now: u64)
    requires
        s.user_mode == FanMode::Bios || (s.user_mode == FanMode::Max
            && s.config.max_fan_write_interval is None) || (s.user_mode == FanMode::Auto
            && !s.temp_monitoring_active),
    ensures
        tick(s, Some(t), now) == (DaemonState { current_temp: Some(t), ..s }, None::<FanWrite>),
{
}

/// In Auto mode, a reading between the thresholds never switches the fans
/// either way: under BIOS control a reading not above the high threshold
/// clears the high count, and at full speed (with no rewrite due) a reading
/// above the low threshold clears the low count.
pub proof fn readings_between_thresholds_keep_the_fans(s: DaemonState, t: i32, now: u64)
    requires
        s.user_mode == FanMode::Auto,
        s.temp_monitoring_active,
    ensures
        s.actual_mode == HardwareFanMode::Bios && !is_high(s.config, t) ==> {
            &&& tick(s, Some(t), now).1 is None
            &&& tick(s, Some(t), now).0.actual_mode == HardwareFanMode::Bios
            &&& tick(s, Some(t), now).0.consecutive_high_temps == 0
        },
        s.actual_mode == HardwareFanMode::Max && !is_low(s.config, t) && !auto_rewrite_due(
            s,
            now,
        ) ==> {
            &&& tick(s, Some(t), now).1 is None
            &&& tick(s, Some(t), now).0.actual_mode == HardwareFanMode::Max
            &&& tick(s, Some(t), now).0.consecutive_low_temps == 0
        },
{
}

/// In Max mode with a rewrite interval, a temperature check writes full
/// speed exactly when nothing was written yet or the interval has passed;
/// a successful write records its time, a failed one changes nothing.
pub proof fn max_mode_rewrite(s: DaemonState, t: i32, now: u64, succeeded: bool, later: u64)
    requires
        s.user_mode == FanMode::Max,
        s.config.max_fan_write_interval is Some,
    ensures
        tick(s, Some(t), now).1 is Some <==> match s.last_fan_write {
            Some(l) => interval_passed(l, now, s.config.max_fan_write_interval->0),
            None => true,
        },
        tick(s, Some(t), now).1 matches Some(w) ==> w == FanWrite::MaxModeRewrite && {
            let after = after_write(tick(s, Some(t), now).0, w, succeeded, later);
            &&& succeeded ==> after.last_fan_write == Some(later) && after.actual_mode
                == HardwareFanMode::Max
            &&& !succeeded ==> after.last_fan_write == s.last_fan_write
        },
{
}

/// In Auto mode at full speed, a due rewrite comes before any low reading
/// is counted: full speed is written again and never BIOS control.
pub proof fn auto_rewrite_comes_first(s: DaemonState, t: i32, now: u64)
    requires
        s.user_mode == FanMode::Auto,
        s.temp_monitoring_active,
        s.actual_mode == HardwareFanMode::Max,
        auto_rewrite_due(s, now),
    ensures
        tick(s, Some(t), now).1 == Some(FanWrite::AutoRewrite),
        tick(s, Some(t), now).0.consecutive_low_temps == s.consecutive_low_temps,
        tick(s, Some(t), now).0.actual_mode == HardwareFanMode::Max,
{
}

/// In Auto mode under BIOS control, `consecutive_high_temp_limit` readings
/// above the high threshold in a row (at least one) ask for full speed only
/// at the last of them; once that write succeeds the fans are at full speed,
/// the write time is on record and the count starts again.
pub proof fn full_speed_after_consecutive_highs(
    s: DaemonState,
    temps: Seq<i32>,
    now: u64,
    later: u64,
)
    requires
        s.user_mode == FanMode::Auto,
        s.temp_monitoring_active,
        s.actual_mode == HardwareFanMode::Bios,
        s.consecutive_high_temps == 0,
        temps.len() == s.config.consecutive_high_temp_limit,
        temps.len() >= 1,
        forall|i: int| 0 <= i < temps.len() ==> is_high(s.config, #[trigger] temps[i]),
    ensures
        ({
            let (before, asked) = run_checks(s, temps.drop_last(), now);
            let (last, w) = tick(before, Some(temps.last()), now);
            let after = after_write(last, FanWrite::AutoEngage, true, later);
            &&& !asked
            &&& w == Some(FanWrite::AutoEngage)
            &&& after.actual_mode == HardwareFanMode::Max
            &&& after.last_fan_write == Some(later)
            &&& after.consecutive_high_temps == 0
            &&& after.user_mode == FanMode::Auto
        }),
{
    let init = temps.drop_last();
    assert forall|i: int| 0 <= i < init.len() implies is_high(s.config, #[trigger] init[i]) by {
        assert(init[i] == temps[i]);
    }
    engage_after_consecutive_highs(s, init, now);
    assert(is_high(s.config, temps[temps.len() - 1]));
}

/// In Auto mode at full speed with no rewrite interval,
/// `consecutive_low_temp_limit` readings at or below the low threshold in a
/// row (at least one) ask for BIOS control only at the last of them; once
/// that write succeeds the BIOS has the fans and the count starts again.
pub proof fn bios_control_after_consecutive_lows(
    s: DaemonState,
    temps: Seq<i32>,
    now: u64,
    later: u64,
)
    requires
        s.user_mode == FanMode::Auto,
        s.temp_monitoring_active,
        s.actual_mode == HardwareFanMode::Max,
        s.config.max_fan_write_interval is None,
        s.consecutive_low_temps == 0,
        temps.len() == s.config.consecutive_low_temp_limit,
        temps.len() >= 1,
        forall|i: int| 0 <= i < temps.len() ==> is_low(s.config, #[trigger] temps[i]),
    ensures
        ({
            let (before, asked) = run_checks(s, temps.drop_last(), now);
            let (last, w) = tick(before, Some(temps.last()), now);
            let after = after_write(last, FanWrite::AutoRelease, true, later);
            &&& !asked
            &&& w == Some(FanWrite::AutoRelease)
            &&& after.actual_mode == HardwareFanMode::Bios
            &&& after.last_fan_write is None
            &&& after.consecutive_low_temps == 0
        }),
{
    let init = temps.drop_last();
    assert forall|i: int| 0 <= i < init.len() implies is_low(s.config, #[trigger] init[i]) by {
        assert(init[i] == temps[i]);
    }
    release_after_consecutive_lows(s, init, now);
    assert(is_low(s.config, temps[temps.len() - 1]));
}

/// No full-speed rewrite is due at time `now`: there is no rewrite interval,
/// nothing was written yet, or less than the interval has passed since the
/// last write (a clock that seems to run backwards counts as no time).
pub open spec fn no_rewrite_due(s: DaemonState, now: u64) -> bool {
    match (s.config.max_fan_write_interval, s.last_fan_write) {
        (Some(i), Some(l)) => (if now >= l {
            now - l
        } else {
            0
        }) < i * 1_000_000_000,
        _ => true,
    }
}

/// In Auto mode at full speed, whatever the rewrite interval, readings at
/// or below the low threshold with no rewrite due are counted, and BIOS
/// control is asked for once `consecutive_low_temp_limit` of them have come
/// in a row.
pub proof fn lows_are_counted_with_any_interval(s: DaemonState, temps: Seq<i32>, now: u64)
    requires
        s.user_mode == FanMode::Auto,
        s.temp_monitoring_active,
        s.actual_mode == HardwareFanMode::Max,
        no_rewrite_due(s, now),
        s.consecutive_low_temps == 0,
        temps.len() < u32::MAX,
        forall|i: int|
            0 <= i < temps.len() ==> #[trigger] temps[i] <= s.config.temp_threshold_low * 1000,
    ensures
        run_checks(s, temps, now).0.consecutive_low_temps == temps.len(),
        same_choices(s, run_checks(s, temps, now).0),
        run_checks(s, temps, now).0.actual_mode == HardwareFanMode::Max,
        run_checks(s, temps, now).0.last_fan_write == s.last_fan_write,
        run_checks(s, temps, now).1 <==> temps.len() >= 1 && temps.len()
            >= s.config.consecutive_low_temp_limit,
    decreases temps.len(),
{
    if temps.len() > 0 {
        let init = temps.drop_last();
        assert forall|i: int| 0 <= i < init.len() implies #[trigger] init[i]
            <= s.config.temp_threshold_low * 1000 by {
            assert(init[i] == temps[i]);
        }
        lows_are_counted_with_any_interval(s, init, now);
        assert(temps[temps.len() - 1] <= s.config.temp_threshold_low * 1000);
        let mid = run_checks(s, init, now).0;
        assert(!auto_rewrite_due(DaemonState { current_temp: Some(temps.last()), ..mid }, now));
    }
}

/// In Auto mode at full speed, whatever the rewrite interval,
/// `consecutive_low_temp_limit` readings at or below the low threshold in a
/// row (at least one), with no rewrite due, ask for BIOS control at the last
/// of them and at none before.
pub proof fn bios_control_after_lows_with_any_interval(s: DaemonState, temps: Seq<i32>, now: u64)
    requires
        s.user_mode == FanMode::Auto,
        s.temp_monitoring_active,
        s.actual_mode == HardwareFanMode::Max,
        no_rewrite_due(s, now),
        s.consecutive_low_temps == 0,
        temps.len() == s.config.consecutive_low_temp_limit,
        temps.len() >= 1,
        forall|i: int|
            0 <= i < temps.len() ==> #[trigger] temps[i] <= s.config.temp_threshold_low * 1000,
    ensures
        !run_checks(s, temps.drop_last(), now).1,
        tick(run_checks(s, temps.drop_last(), now).0, Some(temps.last()), now).1 == Some(
            FanWrite::AutoRelease,
        ),
{
    let init = temps.drop_last();
    assert forall|i: int| 0 <= i < init.len() implies #[trigger] init[i]
        <= s.config.temp_threshold_low * 1000 by {
        assert(init[i] == temps[i]);
    }
    lows_are_counted_with_any_interval(s, init, now);
    assert(temps[temps.len() - 1] <= s.config.temp_threshold_low * 1000);
    let mid = run_checks(s, init, now).0;
    assert(!auto_rewrite_due(DaemonState { current_temp: Some(temps.last()), ..mid }, now));
}

proof fn lemma_status_with_actual(
    user: FanMode,
    actual: HardwareFanMode,
    perf: PerformanceMode,
    x: Seq<char>,
)
    ensures
        occurs_at(
            status_with(user, actual, perf, x),
            label_actual() + hardware_mode_text(actual),
            (label_mode() + fan_mode_text(user)).len() as int,
        ),
        status_with(user, actual, perf, x).len() == label_mode().len() + fan_mode_text(user).len()
            + label_actual().len() + hardware_mode_text(actual).len() + label_performance().len()
            + performance_mode_text(perf).len() + label_temp().len() + x.len(),
{
    let a = label_mode() + fan_mode_text(user);
    let mid = label_actual() + hardware_mode_text(actual);
    let rest = label_performance() + performance_mode_text(perf) + label_temp() + x;
    let t = status_with(user, actual, perf, x);
    assert(t =~= (a + mid) + rest);
    lemma_subrange_left(a + mid, rest, a.len() as int, (a + mid).len() as int);
    lemma_subrange_right(a, mid, a.len() as int, (a + mid).len() as int);
    assert(mid.subrange(0, mid.len() as int) =~= mid);
}

/// The status line names the hardware mode the state records: it holds
/// `, Actual: Max` when the fans are at full speed and `, Actual: Bios`
/// under BIOS control, and two states that differ only in the hardware mode
/// give different lines.
pub proof fn status_names_hardware_mode(
    user: FanMode,
    actual: HardwareFanMode,
    other: HardwareFanMode,
    perf: PerformanceMode,
    temp: Option<i32>,
)
    ensures
        actual == HardwareFanMode::Max ==> contains(
            status_text(user, actual, perf, temp),
            seq![',', ' ', 'A', 'c', 't', 'u', 'a', 'l', ':', ' ', 'M', 'a', 'x'],
        ),
        actual == HardwareFanMode::Bios ==> contains(
            status_text(user, actual, perf, temp),
            seq![',', ' ', 'A', 'c', 't', 'u', 'a', 'l', ':', ' ', 'B', 'i', 'o', 's'],
        ),
        actual != other ==> status_text(user, actual, perf, temp) != status_text(
            user,
            other,
            perf,
            temp,
        ),
{
    let x = temp_text(temp);
    assert(status_text(user, actual, perf, temp) == status_with(user, actual, perf, x));
    assert(status_text(user, other, perf, temp) == status_with(user, other, perf, x));
    lemma_status_with_actual(user, actual, perf, x);
    lemma_status_with_actual(user, other, perf, x);
    let i = (label_mode() + fan_mode_text(user)).len() as int;
    if actual == HardwareFanMode::Max {
        assert(label_actual() + hardware_mode_text(actual) =~= seq![
            ',',
            ' ',
            'A',
            'c',
            't',
            'u',
            'a',
            'l',
            ':',
            ' ',
            'M',
            'a',
            'x',
        ]);
    } else {
        assert(label_actual() + hardware_mode_text(actual) =~= seq![
            ',',
            ' ',
            'A',
            'c',
            't',
            'u',
            'a',
            'l',
            ':',
            ' ',
            'B',
            'i',
            'o',
            's',
        ]);
    }
    assert(occurs_at(status_text(user, actual, perf, temp), label_actual() + hardware_mode_text(actual), i));
}

/// The temperature taken from the sensors is the hottest reading: every
/// sensor that gives a value gives one no higher, one of them gives exactly
/// it, and there is a temperature exactly when some sensor gives one.
pub proof fn sensor_temperature_is_hottest(readings: Seq<Option<String>>)
    ensures
        sensor_temperature(readings) matches Ok(t) ==> {
            &&& forall|i: int|
                0 <= i < readings.len() ==> (#[trigger] sensor_value(readings[i]) matches Some(v)
                    ==> v <= t)
            &&& exists|i: int| 0 <= i < readings.len() && #[trigger] sensor_value(readings[i]) == Some(t)
        },
        sensor_temperature(readings) is Ok <==> exists|i: int|
            0 <= i < readings.len() && #[trigger] sensor_value(readings[i]) is Some,
        sensor_temperature(readings) == Err::<i32, SensorError>(SensorError::NoSensor) <==> readings.len() == 0,
{
    lemma_max_reading(readings);
}

proof fn lemma_max_reading(readings: Seq<Option<String>>)
    ensures
        max_reading(readings) matches Some(t) ==> {
            &&& forall|i: int|
                0 <= i < readings.len() ==> (#[trigger] sensor_value(readings[i]) matches Some(v)
                    ==> v <= t)
            &&& exists|i: int| 0 <= i < readings.len() && #[trigger] sensor_value(readings[i]) == Some(t)
        },
        max_reading(readings) is Some <==> exists|i: int|
            0 <= i < readings.len() && #[trigger] sensor_value(readings[i]) is Some,
    decreases readings.len(),
{
    if readings.len() > 0 {
        let init = readings.drop_last();
        lemma_max_reading(init);
        let n = readings.len() - 1;
        assert forall|i: int| 0 <= i < init.len() implies #[trigger] sensor_value(init[i])
            == sensor_value(readings[i]) by {
            assert(init[i] == readings[i]);
        }
        assert(readings.last() == readings[n]);
        let b = sensor_value(readings[n]);
        let rest = max_reading(init);
        assert(max_reading(readings) == match (rest, b) {
            (Some(a), Some(c)) => Some(if a >= c { a } else { c }),
            (Some(a), None) => Some(a),
            (None, c) => c,
        });
        if rest is Some {
            let j = choose|j: int| 0 <= j < init.len() && #[trigger] sensor_value(init[j]) == rest;
            assert(sensor_value(readings[j]) == rest);
        }
        match max_reading(readings) {
            Some(t) => {
                assert forall|i: int| 0 <= i < readings.len() implies (#[trigger] sensor_value(
                    readings[i],
                ) matches Some(v) ==> v <= t) by {
                    if i < n {
                        assert(sensor_value(init[i]) == sensor_value(readings[i]));
                    }
                }
                if b == Some(t) {
                    assert(sensor_value(readings[n]) == Some(t));
                }
            },
            None => {
                assert forall|i: int| 0 <= i < readings.len() implies !(#[trigger] sensor_value(
                    readings[i],
                ) is Some) by {
                    if i < n {
                        assert(sensor_value(init[i]) == sensor_value(readings[i]));
                    }
                }
            },
        }
    }
}

/// Asking for Auto goes to full speed exactly when the reading is above the
/// configured high threshold (in millidegrees), and to BIOS control when
/// there is no reading; Max always goes to full speed and Bios never.
pub proof fn fan_target_follows_threshold(config: crate::config::AppConfig, t: i32)
    ensures
        fan_target(config, FanMode::Auto, Some(t)) == HardwareFanMode::Max <==> t
            > config.temp_threshold_high * 1000,
        fan_target(config, FanMode::Auto, Some(t)) == HardwareFanMode::Bios <==> t
            <= config.temp_threshold_high * 1000,
        fan_target(config, FanMode::Auto, None) == HardwareFanMode::Bios,
        fan_target(config, FanMode::Max, Some(t)) == HardwareFanMode::Max,
        fan_target(config, FanMode::Bios, Some(t)) == HardwareFanMode::Bios,
{
}

/// A write a temperature check asks for sets the hardware to what the state
/// records once it succeeds; it hands the fans to the BIOS only in Auto mode
/// at full speed after a reading at or below the low threshold, and sets
/// full speed otherwise.
pub proof fn writes_match_recorded_mode(s: DaemonState, t: i32, now: u64, later: u64)
    ensures
        tick(s, Some(t), now).1 matches Some(w) ==> {
            &&& after_write(tick(s, Some(t), now).0, w, true, later).actual_mode == write_target(w)
            &&& write_target(w) == HardwareFanMode::Bios ==> {
                &&& s.user_mode == FanMode::Auto
                &&& s.actual_mode == HardwareFanMode::Max
                &&& t <= s.config.temp_threshold_low * 1000
            }
            &&& (s.user_mode == FanMode::Max || s.actual_mode == HardwareFanMode::Max) && !(t
                <= s.config.temp_threshold_low * 1000) ==> write_target(w) == HardwareFanMode::Max
        },
{
}

} // verus!
