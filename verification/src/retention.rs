//! The retention evaluator: a pure function from a backup history and a
//! retention policy to the set of snapshot ids that are due for pruning.

use vstd::prelude::*;
use vstd::string::StrSliceExecFns;
use crate::resources::{BackupHistoryEntry, HistoryEntryView, RetentionSpec};
use crate::text::str_eq;

verus! {

// --- integer parsing, with the standard library's semantics ---

pub open spec fn is_digit(c: char) -> bool {
    '0' <= c && c <= '9'
}

pub open spec fn digit_val(c: char) -> int {
    c as int - '0' as int
}

pub open spec fn all_digits(s: Seq<char>) -> bool {
    forall|i: int| 0 <= i < s.len() ==> is_digit(#[trigger] s[i])
}

/// The unbounded integer value of a digit string.
pub open spec fn digits_value(s: Seq<char>) -> int
    decreases s.len(),
{
    if s.len() == 0 {
        0
    } else {
        digits_value(s.drop_last()) * 10 + digit_val(s.last())
    }
}

/// What `str::parse::<i64>` returns: an optional sign, then at least one
/// digit and nothing else, with out-of-range values rejected.
pub open spec fn parse_i64_view(s: Seq<char>) -> Option<i64> {
    let negative = s.len() > 0 && s[0] == '-';
    let body = if s.len() > 0 && (s[0] == '-' || s[0] == '+') {
        s.drop_first()
    } else {
        s
    };
    if body.len() == 0 || !all_digits(body) {
        None
    } else {
        let v = if negative {
            -digits_value(body)
        } else {
            digits_value(body)
        };
        if i64::MIN <= v <= i64::MAX {
            Some(v as i64)
        } else {
            None
        }
    }
}

/// A digit string's value never shrinks when a digit is appended.
proof fn lemma_digits_value_nonneg(s: Seq<char>)
    requires
        all_digits(s),
    ensures
        digits_value(s) >= 0,
    decreases s.len(),
{
    if s.len() > 0 {
        assert(all_digits(s.drop_last())) by {
            assert(forall|i: int|
                0 <= i < s.len() - 1 ==> s.drop_last()[i] == #[trigger] s[i]);
        }
        lemma_digits_value_nonneg(s.drop_last());
        assert(digit_val(s.last()) >= 0);
    }
}

/// Parse an `i64` from text, exactly as the standard library does.
#[verifier::loop_isolation(false)]
pub fn parse_i64(s: &str) -> (r: Option<i64>)
    ensures
        r == parse_i64_view(s@),
{
    let len = s.unicode_len();
    let ghost sv = s@;
    let mut start: usize = 0;
    let mut negative: bool = false;
    if len > 0 {
        let c0 = s.get_char(0);
        if c0 == '-' {
            negative = true;
            start = 1;
        } else if c0 == '+' {
            start = 1;
        }
    }
    let ghost body = if sv.len() > 0 && (sv[0] == '-' || sv[0] == '+') {
        sv.drop_first()
    } else {
        sv
    };
    if start >= len {
        // no digits at all
        assert(body.len() == 0);
        return None;
    }
    assert(body.len() == len - start);
    assert(forall|k: int| 0 <= k < body.len() ==> body[k] == sv[k + start]);
    // magnitude saturates just above i64's range; one extra digit on a
    // saturated value keeps it saturated because values only grow
    let bound: i128 = 9223372036854775808i128;
    let mut acc: i128 = 0;
    let mut i: usize = start;
    while i < len
        invariant
            start <= i <= len,
            sv == s@,
            len == sv.len(),
            body.len() == len - start,
            forall|k: int| 0 <= k < body.len() ==> body[k] == sv[k + start],
            all_digits(body.take(i - start)),
            bound == 9223372036854775808i128,
            digits_value(body.take(i - start)) <= bound ==> acc == digits_value(
                body.take(i - start),
            ),
            digits_value(body.take(i - start)) > bound ==> acc > bound,
            0 <= acc <= bound * 10 + 9,
            digits_value(body.take(i - start)) >= 0,
        decreases len - i,
    {
        let c = s.get_char(i);
        if c < '0' || c > '9' {
            assert(!is_digit(body[i - start]));
            assert(!all_digits(body));
            return None;
        }
        let d: i128 = (c as u32 as i128) - ('0' as u32 as i128);
        assert(d == digit_val(sv[i as int]));
        let new_acc: i128 = if acc > bound {
            bound + 1
        } else {
            acc * 10 + d
        };
        proof {
            let prefix = body.take(i - start);
            let prefix2 = body.take(i + 1 - start);
            assert(prefix2.drop_last() =~= prefix);
            assert(prefix2.last() == body[i - start]);
            assert(digits_value(prefix2) == digits_value(prefix) * 10 + d);
            assert(all_digits(prefix2)) by {
                assert(forall|k: int|
                    0 <= k < prefix2.len() - 1 ==> prefix2[k] == #[trigger] prefix[k]);
            }
            lemma_digits_value_nonneg(prefix2);
        }
        acc = new_acc;
        i += 1;
    }
    assert(body.take(i - start) =~= body);
    assert(all_digits(body));
    if negative {
        if acc > bound {
            return None;
        }
        if acc == bound {
            assert(-digits_value(body) == i64::MIN);
            return Some(i64::MIN);
        }
        let v: i64 = acc as i64;
        return Some(-v);
    }
    if acc >= bound {
        return None;
    }
    let v: i64 = acc as i64;
    Some(v)
}

// --- whitespace trimming ---

/// The Unicode White_Space set, as `str::trim` understands it.
pub open spec fn is_space(c: char) -> bool {
    c == ' ' || c == '\t' || c == '\n' || c == '\u{B}' || c == '\u{C}' || c == '\r' || c
        == '\u{85}' || c == '\u{A0}' || c == '\u{1680}' || ('\u{2000}' <= c && c <= '\u{200A}')
        || c == '\u{2028}' || c == '\u{2029}' || c == '\u{202F}' || c == '\u{205F}' || c
        == '\u{3000}'
}

pub open spec fn trim_front(s: Seq<char>) -> Seq<char>
    decreases s.len(),
{
    if s.len() > 0 && is_space(s[0]) {
        trim_front(s.drop_first())
    } else {
        s
    }
}

pub open spec fn trim_back(s: Seq<char>) -> Seq<char>
    decreases s.len(),
{
    if s.len() > 0 && is_space(s.last()) {
        trim_back(s.drop_last())
    } else {
        s
    }
}

/// The text with leading and trailing whitespace removed.
pub open spec fn trim_view(s: Seq<char>) -> Seq<char> {
    trim_back(trim_front(s))
}

proof fn lemma_trim_front_skip(s: Seq<char>, k: int)
    requires
        0 <= k <= s.len(),
        forall|j: int| 0 <= j < k ==> is_space(#[trigger] s[j]),
        k < s.len() ==> !is_space(s[k]),
    ensures
        trim_front(s) =~= s.skip(k),
    decreases k,
{
    if k > 0 {
        lemma_trim_front_skip(s.drop_first(), k - 1);
    }
}

proof fn lemma_trim_back_take(s: Seq<char>, b: int)
    requires
        0 <= b <= s.len(),
        forall|j: int| b <= j < s.len() ==> is_space(#[trigger] s[j]),
        b > 0 ==> !is_space(s[b - 1]),
    ensures
        trim_back(s) =~= s.take(b),
    decreases s.len() - b,
{
    if b < s.len() {
        lemma_trim_back_take(s.drop_last(), b);
    }
}

fn is_space_char(c: char) -> (r: bool)
    ensures
        r == is_space(c),
{
    c == ' ' || c == '\t' || c == '\n' || c == '\u{B}' || c == '\u{C}' || c == '\r' || c
        == '\u{85}' || c == '\u{A0}' || c == '\u{1680}' || ('\u{2000}' <= c && c <= '\u{200A}')
        || c == '\u{2028}' || c == '\u{2029}' || c == '\u{202F}' || c == '\u{205F}' || c
        == '\u{3000}'
}

/// Remove leading and trailing whitespace.
pub fn trim_spaces(s: &str) -> (r: &str)
    ensures
        r@ == trim_view(s@),
{
    let len = s.unicode_len();
    let mut a: usize = 0;
    while a < len && is_space_char(s.get_char(a))
        invariant
            0 <= a <= len,
            len == s@.len(),
            forall|j: int| 0 <= j < a ==> is_space(#[trigger] s@[j]),
        decreases len - a,
    {
        a += 1;
    }
    let mut b: usize = len;
    while b > a && is_space_char(s.get_char(b - 1))
        invariant
            a <= b <= len,
            len == s@.len(),
            forall|j: int| 0 <= j < a ==> is_space(#[trigger] s@[j]),
            a < len ==> !is_space(s@[a as int]),
            forall|j: int| b <= j < len ==> is_space(#[trigger] s@[j]),
        decreases b,
    {
        b -= 1;
    }
    proof {
        lemma_trim_front_skip(s@, a as int);
        let f = s@.skip(a as int);
        lemma_trim_back_take(f, b - a);
        assert(forall|j: int|
            b - a <= j < f.len() ==> f[j] == #[trigger] s@[j + a]);
        if b > a {
            assert(f[b - a - 1] == s@[b - 1]);
        }
        assert(trim_view(s@) =~= s@.subrange(a as int, b as int));
    }
    let r = s.substring_char(a, b);
    proof {
        assert(r@ =~= trim_view(s@));
    }
    r
}

// --- duration strings ---

/// Milliseconds per unit letter, or `None` for an unknown unit.
pub open spec fn unit_millis(c: char) -> Option<i64> {
    if c == 's' {
        Some(1000i64)
    } else if c == 'm' {
        Some(60000i64)
    } else if c == 'h' {
        Some(3600000i64)
    } else if c == 'd' {
        Some(86400000i64)
    } else if c == 'w' {
        Some(604800000i64)
    } else {
        None
    }
}

/// What duration a policy string denotes, in milliseconds: an integer
/// followed by a single unit letter (`s`, `m`, `h`, `d`, `w`), surrounded
/// by optional whitespace.  Unknown units, non-numbers, the empty string
/// and values whose product leaves i64's range all denote nothing.
pub open spec fn parse_duration_view(s: Seq<char>) -> Option<i64> {
    let t = trim_view(s);
    if t.len() == 0 {
        None
    } else {
        let num = t.take(t.len() - 1);
        let unit = t.last();
        match (parse_i64_view(num), unit_millis(unit)) {
            (Some(v), Some(m)) => {
                if i64::MIN <= v * m <= i64::MAX {
                    Some((v * m) as i64)
                } else {
                    None
                }
            },
            _ => None,
        }
    }
}

/// Parse a duration string like `"30d"`, `"720h"` or `"4w"` into
/// milliseconds.
pub fn parse_duration(s: &str) -> (r: Option<i64>)
    ensures
        r == parse_duration_view(s@),
{
    let t = trim_spaces(s);
    let len = t.unicode_len();
    if len == 0 {
        return None;
    }
    let unit = t.get_char(len - 1);
    let num = t.substring_char(0, len - 1);
    assert(num@ =~= trim_view(s@).take(trim_view(s@).len() - 1));
    let value = match parse_i64(num) {
        Some(v) => v,
        None => {
            return None;
        },
    };
    let mult: i64 = if unit == 's' {
        1000
    } else if unit == 'm' {
        60000
    } else if unit == 'h' {
        3600000
    } else if unit == 'd' {
        86400000
    } else if unit == 'w' {
        604800000
    } else {
        return None;
    };
    value.checked_mul(mult)
}

// --- the retention rule ---

/// `a` (at original position `ia`) sorts strictly ahead of `b` (at `ib`)
/// when ordering newest-first with a stable tie-break on position.
pub open spec fn entry_newer(
    a: HistoryEntryView,
    ia: int,
    b: HistoryEntryView,
    ib: int,
) -> bool {
    a.start_time > b.start_time || (a.start_time == b.start_time && ia < ib)
}

/// How many of the first `k` entries sort strictly ahead of entry `i`.
pub open spec fn newer_count(h: Seq<HistoryEntryView>, i: int, k: int) -> int
    decreases k,
{
    if k <= 0 {
        0
    } else {
        newer_count(h, i, k - 1) + if entry_newer(h[k - 1], k - 1, h[i], i) {
            1int
        } else {
            0int
        }
    }
}

/// The count rule: with `max_backups = m`, every entry that has at least
/// `m` newer entries is beyond the kept window.
pub open spec fn count_rule(h: Seq<HistoryEntryView>, i: int, max_backups: Option<i32>) -> bool {
    match max_backups {
        Some(m) => m >= 0 && newer_count(h, i, h.len() as int) >= m,
        None => false,
    }
}

/// The age rule: an entry strictly older than `now - max_age` is pruned;
/// an entry exactly at the cutoff is retained.  An unparseable `max_age`
/// disables the rule.
pub open spec fn age_rule(
    e: HistoryEntryView,
    max_age: Option<String>,
    now_millis: i64,
) -> bool {
    match max_age {
        Some(a) => match parse_duration_view(a@) {
            Some(d) => (e.start_time as int) < now_millis - d,
            None => false,
        },
        None => false,
    }
}

/// Whether entry `i` should be pruned under the policy: the union of the
/// count rule and the age rule.
pub open spec fn should_prune(
    h: Seq<HistoryEntryView>,
    i: int,
    retention: RetentionSpec,
    now_millis: i64,
) -> bool {
    count_rule(h, i, retention.max_backups) || age_rule(h[i], retention.max_age, now_millis)
}

/// Law: with no count rule in force, an entry is pruned exactly when it is
/// strictly older than the cutoff `now - max_age`; an entry exactly at the
/// cutoff is retained.
pub proof fn lemma_age_boundary(
    h: Seq<HistoryEntryView>,
    i: int,
    retention: RetentionSpec,
    duration: i64,
    now_millis: i64,
)
    requires
        0 <= i < h.len(),
        retention.max_backups is None,
        retention.max_age matches Some(a) && parse_duration_view(a@) == Some(duration),
    ensures
        should_prune(h, i, retention, now_millis) <==> (h[i].start_time as int) < now_millis
            - duration,
{
}

/// Whether a string list holds the given value.
pub fn vec_contains_str(v: &Vec<String>, s: &String) -> (r: bool)
    ensures
        r == v.deep_view().contains(s@),
{
    let n = v.len();
    let mut i: usize = 0;
    while i < n
        invariant
            n == v@.len(),
            0 <= i <= n,
            forall|j: int| 0 <= j < i ==> v.deep_view()[j] != s@,
        decreases n - i,
    {
        if str_eq(v[i].as_str(), s.as_str()) {
            assert(v.deep_view()[i as int] == s@);
            return true;
        }
        i += 1;
    }
    assert(forall|j: int| 0 <= j < v.deep_view().len() ==> v.deep_view()[j] != s@);
    false
}

/// Count how many entries sort strictly ahead of entry `i`.
fn rank_of(history: &Vec<BackupHistoryEntry>, i: usize) -> (r: usize)
    requires
        i < history@.len(),
    ensures
        r == newer_count(history.deep_view(), i as int, history@.len() as int),
{
    let n = history.len();
    let mut count: usize = 0;
    let mut j: usize = 0;
    while j < n
        invariant
            n == history@.len(),
            i < n,
            0 <= j <= n,
            count == newer_count(history.deep_view(), i as int, j as int),
            count <= j,
        decreases n - j,
    {
        let newer = if history[j].start_time > history[i].start_time {
            true
        } else {
            history[j].start_time == history[i].start_time && j < i
        };
        if newer {
            count += 1;
        }
        j += 1;
    }
    count
}

/// Evaluate which backups should be pruned under the retention policy.
///
/// The result lists, without duplicates and in history order, the id of
/// every entry selected by the count rule or the age rule.
pub fn evaluate_retention(
    history: &Vec<BackupHistoryEntry>,
    retention: &RetentionSpec,
    now_millis: i64,
) -> (r: Vec<String>)
    ensures
        forall|id: Seq<char>|
            #[trigger] r.deep_view().contains(id) <==> exists|i: int|
                0 <= i < history@.len() && #[trigger] history.deep_view()[i].id == id
                    && should_prune(history.deep_view(), i, *retention, now_millis),
        forall|a: int, b: int|
            0 <= a < b < r.deep_view().len() ==> r.deep_view()[a] != r.deep_view()[b],
{
    let mut to_prune: Vec<String> = Vec::new();
    let n = history.len();
    // resolve the age cutoff once; i128 keeps the subtraction exact
    let age_cutoff: Option<i128> = match &retention.max_age {
        Some(a) => match parse_duration(a.as_str()) {
            Some(d) => Some(now_millis as i128 - d as i128),
            None => None,
        },
        None => None,
    };
    let mut i: usize = 0;
    while i < n
        invariant
            n == history@.len(),
            0 <= i <= n,
            match retention.max_age {
                Some(a) => match parse_duration_view(a@) {
                    Some(d) => age_cutoff == Some((now_millis - d) as i128),
                    None => age_cutoff is None,
                },
                None => age_cutoff is None,
            },
            forall|id: Seq<char>|
                #[trigger] to_prune.deep_view().contains(id) <==> exists|k: int|
                    0 <= k < i && #[trigger] history.deep_view()[k].id == id && should_prune(
                        history.deep_view(),
                        k,
                        *retention,
                        now_millis,
                    ),
            forall|a: int, b: int|
                0 <= a < b < to_prune.deep_view().len() ==> to_prune.deep_view()[a]
                    != to_prune.deep_view()[b],
        decreases n - i,
    {
        let by_count: bool = match &retention.max_backups {
            Some(m) => {
                if *m < 0 {
                    false
                } else {
                    let rank = rank_of(history, i);
                    rank >= (*m as usize)
                }
            },
            None => false,
        };
        let by_age: bool = match age_cutoff {
            Some(cutoff) => (history[i].start_time as i128) < cutoff,
            None => false,
        };
        assert(by_age == age_rule(history.deep_view()[i as int], retention.max_age, now_millis));
        let ghost old_seq = to_prune.deep_view();
        if by_count || by_age {
            assert(should_prune(history.deep_view(), i as int, *retention, now_millis));
            if !vec_contains_str(&to_prune, &history[i].id) {
                to_prune.push(history[i].id.clone());
                proof {
                    let new_seq = to_prune.deep_view();
                    let pushed = history.deep_view()[i as int].id;
                    assert(new_seq =~= old_seq.push(pushed));
                    assert forall|id: Seq<char>| #[trigger] new_seq.contains(id) implies (
                    old_seq.contains(id) || id == pushed) by {
                        let j = choose|j: int| 0 <= j < new_seq.len() && new_seq[j] == id;
                        if j < old_seq.len() {
                            assert(old_seq[j] == id);
                        }
                    }
                    assert forall|id: Seq<char>| old_seq.contains(id) implies #[trigger] new_seq.contains(
                        id,
                    ) by {
                        let j = choose|j: int| 0 <= j < old_seq.len() && old_seq[j] == id;
                        assert(new_seq[j] == id);
                    }
                    assert(new_seq.contains(pushed)) by {
                        assert(new_seq[old_seq.len() as int] == pushed);
                    }
                }
            }
        } else {
            assert(!should_prune(history.deep_view(), i as int, *retention, now_millis));
        }
        i += 1;
    }
    to_prune
}

} // verus!
