//! Plain text operations: joining word lists with a separator and reading
//! a non-negative integer out of a decimal string.

use vstd::prelude::*;
use vstd::std_specs::iter::IteratorSpec;
use vstd::string::StringExecFns;
use vstd::string::StrSliceExecFns;

verus! {

/// The characters that joining `parts` with `sep` yields: the parts in
/// order, one `sep` between neighbours, nothing else.
pub open spec fn join_seqs(parts: Seq<Seq<char>>, sep: Seq<char>) -> Seq<char>
    decreases parts.len(),
{
    if parts.len() == 0 {
        Seq::empty()
    } else if parts.len() == 1 {
        parts[0]
    } else {
        join_seqs(parts.drop_last(), sep) + sep + parts.last()
    }
}

/// The concatenation of `parts` in order, with nothing between them.
pub open spec fn concat_seqs(parts: Seq<Seq<char>>) -> Seq<char>
    decreases parts.len(),
{
    if parts.len() == 0 {
        Seq::empty()
    } else {
        concat_seqs(parts.drop_last()) + parts.last()
    }
}

/// The character sequences behind a sequence of strings.
pub open spec fn views_of(parts: Seq<String>) -> Seq<Seq<char>> {
    parts.map_values(|s: String| s@)
}

/// The view of a string sequence commutes with appending one string.
pub proof fn lemma_views_of_push(s: Seq<String>, x: String)
    ensures
        views_of(s.push(x)) =~= views_of(s).push(x@),
{
    let a = views_of(s.push(x));
    let b = views_of(s).push(x@);
    assert forall|k: int| 0 <= k < a.len() implies a[k] == b[k] by {
        if k < s.len() {
            assert(s.push(x)[k] == s[k]);
        } else {
            assert(s.push(x)[k] == x);
        }
    }
}

/// Join `parts` with `sep` between neighbours.
pub fn join_strings(parts: &Vec<String>, sep: &str) -> (r: String)
    ensures
        r@ == join_seqs(views_of(parts@), sep@),
{
    let mut r = String::new();
    let mut i: usize = 0;
    while i < parts.len()
        invariant
            i <= parts@.len(),
            r@ == join_seqs(views_of(parts@).take(i as int), sep@),
        decreases parts@.len() - i,
    {
        if i > 0 {
            r.append(sep);
        }
        r.append(parts[i].as_str());
        proof {
            let full = views_of(parts@);
            assert(full.take(i + 1).drop_last() =~= full.take(i as int));
            assert(full.take(i + 1).last() == parts@[i as int]@);
        }
        i = i + 1;
    }
    proof {
        assert(views_of(parts@).take(parts@.len() as int) =~= views_of(parts@));
    }
    r
}

/// What `str::trim` leaves of a string: the input without leading and
/// trailing whitespace, a function of the characters alone.
pub uninterp spec fn trimmed(s: Seq<char>) -> Seq<char>;

/// Relies on `str::trim` for the Unicode whitespace rules.
#[verifier::external_body]
pub(crate) fn str_trim(s: &str) -> (r: &str)
    ensures
        r@ == trimmed(s@),
{
    s.trim()
}

/// A decimal digit.
pub open spec fn is_digit_char(c: char) -> bool {
    48 <= c as u32 && c as u32 <= 57
}

/// The value of a decimal digit.
pub open spec fn digit_val(c: char) -> int {
    c as u32 - 48
}

/// The digit part of a number string: what follows an optional leading '+'.
pub open spec fn digits_of(s: Seq<char>) -> Seq<char> {
    if s.len() > 0 && s[0] == '+' {
        s.drop_first()
    } else {
        s
    }
}

pub open spec fn all_digits(s: Seq<char>) -> bool {
    forall|i: int| 0 <= i < s.len() ==> is_digit_char(#[trigger] s[i])
}

/// The number a digit string denotes, most significant digit first.
pub open spec fn digits_value(s: Seq<char>) -> int
    decreases s.len(),
{
    if s.len() == 0 {
        0
    } else {
        digits_value(s.drop_last()) * 10 + digit_val(s.last())
    }
}

/// Whether `s` is accepted by `str::parse::<usize>`: an optional leading
/// '+', then one or more decimal digits, denoting a value that fits.
pub open spec fn parses_as_usize(s: Seq<char>) -> bool {
    &&& digits_of(s).len() > 0
    &&& all_digits(digits_of(s))
    &&& digits_value(digits_of(s)) <= usize::MAX
}

proof fn lemma_digits_value_nonneg(s: Seq<char>)
    requires
        all_digits(s),
    ensures
        digits_value(s) >= 0,
    decreases s.len(),
{
    if s.len() > 0 {
        lemma_digits_value_nonneg(s.drop_last());
    }
}

/// Extending a digit string never shrinks its value.
proof fn lemma_digits_value_prefix(s: Seq<char>, k: int)
    requires
        all_digits(s),
        0 <= k <= s.len(),
    ensures
        digits_value(s.take(k)) <= digits_value(s),
    decreases s.len(),
{
    if k == s.len() {
        assert(s.take(k) =~= s);
    } else {
        let t = s.drop_last();
        assert(s.take(k) =~= t.take(k));
        lemma_digits_value_prefix(t, k);
        lemma_digits_value_nonneg(t);
    }
}

/// One scan step over the maximal decimal-digit runs of `s`: the sum of
/// the values of the closed runs, and the value of the run still open at
/// the end (0 when `s` ends in a non-digit).
pub open spec fn digit_run_scan(s: Seq<char>) -> (int, int)
    decreases s.len(),
{
    if s.len() == 0 {
        (0, 0)
    } else {
        let p = digit_run_scan(s.drop_last());
        let c = s.last();
        if is_digit_char(c) {
            (p.0, p.1 * 10 + digit_val(c))
        } else {
            (p.0 + p.1, 0)
        }
    }
}

/// The sum of the values of the maximal decimal-digit runs in `s`. Every
/// frequency field of a dictionary source is one such run (its digits are
/// bounded by non-digits on both sides), so this sum bounds the total
/// frequency an accepted source can carry.
pub open spec fn digit_run_sum(s: Seq<char>) -> int {
    digit_run_scan(s).0 + digit_run_scan(s).1
}

proof fn lemma_digit_run_scan_nonneg(s: Seq<char>)
    ensures
        digit_run_scan(s).0 >= 0,
        digit_run_scan(s).1 >= 0,
    decreases s.len(),
{
    if s.len() > 0 {
        lemma_digit_run_scan_nonneg(s.drop_last());
    }
}

/// Extending a string never shrinks its digit-run sum.
proof fn lemma_digit_run_sum_prefix(s: Seq<char>, k: int)
    requires
        0 <= k <= s.len(),
    ensures
        digit_run_sum(s.take(k)) <= digit_run_sum(s),
    decreases s.len(),
{
    if k == s.len() {
        assert(s.take(k) =~= s);
    } else {
        let t = s.drop_last();
        assert(s.take(k) =~= t.take(k));
        lemma_digit_run_sum_prefix(t, k);
        lemma_digit_run_scan_nonneg(t);
    }
}

/// Compute the digit-run sum of `text`, or `None` when it does not fit.
pub fn digit_run_measure(text: &str) -> (r: Option<u64>)
    ensures
        r matches Some(v) ==> v == digit_run_sum(text@),
        r is Some <==> digit_run_sum(text@) <= u64::MAX,
{
    broadcast use vstd::string::group_string_axioms;

    let n = text.unicode_len();
    let mut it = text.chars();
    let mut closed: u64 = 0;
    let mut run: u64 = 0;
    let ghost full = text@;
    let mut i: usize = 0;
    while i < n
        invariant
            it.obeys_prophetic_iter_laws(),
            n == full.len(),
            full == text@,
            0 <= i <= n,
            it.remaining() =~= full.skip(i as int),
            (closed as int, run as int) == digit_run_scan(full.take(i as int)),
            closed + run <= u64::MAX,
        decreases full.len() - i,
    {
        let c = match it.next() {
            None => {
                return None;
            },
            Some(c) => c,
        };
        proof {
            assert(c == full[i as int]);
            assert(full.take(i + 1).drop_last() =~= full.take(i as int));
            assert(full.take(i + 1).last() == c);
            assert(full.skip(i as int).drop_first() =~= full.skip(i + 1));
        }
        let cv = c as u32;
        if 48 <= cv && cv <= 57 {
            let d = (cv - 48) as u64;
            proof {
                assert(is_digit_char(c));
                assert(digit_run_scan(full.take(i + 1)) == (closed as int, run * 10 + d));
            }
            let wide: u128 = (closed as u128) + (run as u128) * 10 + (d as u128);
            if wide > u64::MAX as u128 {
                proof {
                    assert(digit_run_sum(full.take(i + 1)) > u64::MAX);
                    lemma_digit_run_sum_prefix(full, i + 1);
                }
                return None;
            }
            run = run * 10 + d;
        } else {
            proof {
                assert(!is_digit_char(c));
                assert(digit_run_scan(full.take(i + 1)) == (closed + run, 0int));
            }
            closed = closed + run;
            run = 0;
        }
        i = i + 1;
    }
    proof {
        assert(full.take(full.len() as int) =~= full);
    }
    Some(closed + run)
}

/// Read a non-negative integer out of `s` exactly as `str::parse::<usize>`
/// would: `None` on an empty digit part, a non-digit, or overflow.
pub fn parse_usize(s: &str) -> (r: Option<usize>)
    ensures
        r is Some <==> parses_as_usize(s@),
        r matches Some(v) ==> v == digits_value(digits_of(s@)),
{
    let n = s.unicode_len();
    if n == 0 {
        return None;
    }
    let start: usize = if s.get_char(0) == '+' {
        1
    } else {
        0
    };
    if n == start {
        return None;
    }
    let ghost d = digits_of(s@);
    proof {
        assert forall|k: int| 0 <= k < d.len() implies d[k] == s@[k + start] by {}
    }
    let mut val: usize = 0;
    let mut i: usize = start;
    while i < n
        invariant
            start <= i <= n,
            n == s@.len(),
            start == 1 ==> s@[0] == '+',
            start <= 1,
            d == digits_of(s@),
            d.len() == n - start,
            forall|k: int| 0 <= k < d.len() ==> d[k] == s@[k + start],
            all_digits(d.take(i - start)),
            val == digits_value(d.take(i - start)),
        decreases n - i,
    {
        let c = s.get_char(i);
        let cv = c as u32;
        if cv < 48 || cv > 57 {
            proof {
                assert(d[i - start] == c);
                assert(!is_digit_char(d[i - start]));
                assert(!all_digits(d));
            }
            return None;
        }
        let dig = (cv - 48) as usize;
        let wide: u128 = (val as u128) * 10 + (dig as u128);
        proof {
            assert(d.take(i - start + 1).drop_last() =~= d.take(i - start));
            assert(d.take(i - start + 1).last() == c);
        }
        if wide > usize::MAX as u128 {
            proof {
                if all_digits(d) {
                    assert(digits_value(d.take(i - start + 1)) == wide);
                    lemma_digits_value_prefix(d, i - start + 1);
                    assert(digits_value(d) > usize::MAX);
                }
            }
            return None;
        }
        val = wide as usize;
        i = i + 1;
    }
    proof {
        assert(d.take(n - start) =~= d);
    }
    Some(val)
}

} // verus!
