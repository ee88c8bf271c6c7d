//! Account configuration, and the parser for the configured list of
//! tracked chat ids: a comma-separated list of integers, each entry
//! surrounded by optional whitespace.
//!
//! A malformed entry is a fatal configuration error; the parser
//! reports it by yielding nothing, and the embedding program stops.

use vstd::prelude::*;

use vstd::slice::slice_subrange;
use vstd::slice::slice_to_vec;
use vstd::utf8::encode_utf8;

verus! {

/// The settings one account runs with.
#[derive(Debug, Clone, PartialEq)]
pub struct TelegramConfig {
    /// The chat API application id.
    pub api_id: i32,
    /// The chat API application hash.
    pub api_hash: String,
    /// Where the session file lives.
    pub session_name: String,
    /// The chats whose messages are parsed.
    pub tracked_chat_ids: Vec<i64>,
}

/// ASCII whitespace: space, tab, and the line-break characters.
pub open spec fn is_ascii_space(b: u8) -> bool {
    b == 32 || (9 <= b && b <= 13)
}

/// An ASCII decimal digit.
pub open spec fn is_dec_digit(b: u8) -> bool {
    48 <= b && b <= 57
}

/// `s` with leading and trailing ASCII whitespace removed.
pub open spec fn trim_spec(s: Seq<u8>) -> Seq<u8>
    decreases s.len(),
{
    if s.len() > 0 && is_ascii_space(s[0]) {
        trim_spec(s.drop_first())
    } else if s.len() > 0 && is_ascii_space(s.last()) {
        trim_spec(s.drop_last())
    } else {
        s
    }
}

/// Where the segment beginning at `i` ends: the first position at or
/// after `i` that is past the end or holds a comma.
pub open spec fn seg_end(s: Seq<u8>, i: int) -> int
    decreases s.len() - i,
{
    if i >= s.len() || s[i] == 44 {
        i
    } else {
        seg_end(s, i + 1)
    }
}

/// `seg_end` stays within bounds and runs to the next comma.
pub proof fn lemma_seg_end(s: Seq<u8>, i: int)
    requires
        0 <= i <= s.len(),
    ensures
        i <= seg_end(s, i) <= s.len(),
        forall|k: int| i <= k < seg_end(s, i) ==> s[k] != 44,
        seg_end(s, i) == s.len() || s[seg_end(s, i)] == 44,
    decreases s.len() - i,
{
    if i < s.len() && s[i] != 44 {
        lemma_seg_end(s, i + 1);
    }
}

/// The comma-separated segments of `s` from position `i` on. An input
/// without commas is one segment; every comma opens a further one, so
/// an empty input holds exactly one empty segment.
pub open spec fn split_commas(s: Seq<u8>, i: int) -> Seq<Seq<u8>>
    decreases s.len() - i,
    when 0 <= i <= s.len()
    via split_commas_dec
{
    let j = seg_end(s, i);
    if j >= s.len() {
        seq![s.subrange(i, s.len() as int)]
    } else {
        seq![s.subrange(i, j)] + split_commas(s, j + 1)
    }
}

#[via_fn]
proof fn split_commas_dec(s: Seq<u8>, i: int) {
    lemma_seg_end(s, i);
}

/// The numeric value of a digit string, most significant digit first.
pub open spec fn digits_value(ds: Seq<u8>) -> int
    decreases ds.len(),
{
    if ds.len() == 0 {
        0
    } else {
        digits_value(ds.drop_last()) * 10 + (ds.last() - 48)
    }
}

/// A run of decimal digits, at least one.
pub open spec fn all_digits(ds: Seq<u8>) -> bool {
    ds.len() > 0 && forall|k: int| 0 <= k < ds.len() ==> is_dec_digit(#[trigger] ds[k])
}

/// An integer literal: an optional sign followed by digits.
pub open spec fn is_int_token(t: Seq<u8>) -> bool {
    if t.len() > 0 && (t[0] == 43 || t[0] == 45) {
        all_digits(t.drop_first())
    } else {
        all_digits(t)
    }
}

/// The value an integer literal denotes.
pub open spec fn token_value(t: Seq<u8>) -> int {
    if t.len() > 0 && t[0] == 45 {
        -digits_value(t.drop_first())
    } else if t.len() > 0 && t[0] == 43 {
        digits_value(t.drop_first())
    } else {
        digits_value(t)
    }
}

/// What a segment parses to: its value exactly when it is an integer
/// literal whose value fits the id type, and nothing otherwise.
pub open spec fn token_to_i64(t: Seq<u8>) -> Option<i64> {
    if is_int_token(t) && i64::MIN <= token_value(t) <= i64::MAX {
        Option::Some(token_value(t) as i64)
    } else {
        Option::None
    }
}

/// Ten to the `n`.
pub open spec fn pow10(n: nat) -> int
    decreases n,
{
    if n == 0 {
        1
    } else {
        10 * pow10((n - 1) as nat)
    }
}

/// A digit string's value is bounded by ten to its length.
pub proof fn lemma_digits_upper(ds: Seq<u8>)
    requires
        forall|k: int| 0 <= k < ds.len() ==> is_dec_digit(#[trigger] ds[k]),
    ensures
        0 <= digits_value(ds) < pow10(ds.len()),
    decreases ds.len(),
{
    if ds.len() > 0 {
        lemma_digits_upper(ds.drop_last());
    }
}

/// A digit string that does not begin with zero reaches ten to its
/// length less one.
pub proof fn lemma_digits_lower(ds: Seq<u8>)
    requires
        forall|k: int| 0 <= k < ds.len() ==> is_dec_digit(#[trigger] ds[k]),
        ds.len() > 0,
        ds[0] != 48,
    ensures
        digits_value(ds) >= pow10((ds.len() - 1) as nat),
    decreases ds.len(),
{
    assert(is_dec_digit(ds[ds.len() - 1]));
    assert(ds.last() == ds[ds.len() - 1]);
    if ds.len() > 1 {
        assert(ds.drop_last()[0] == ds[0]);
        assert(forall|k: int|
            0 <= k < ds.drop_last().len() ==> #[trigger] ds.drop_last()[k] == ds[k]);
        lemma_digits_lower(ds.drop_last());
        assert(digits_value(ds) == digits_value(ds.drop_last()) * 10 + (ds.last() - 48));
        assert(pow10((ds.len() - 1) as nat) == 10 * pow10((ds.len() - 2) as nat));
    } else {
        assert(digits_value(ds.drop_last()) == 0);
    }
}

/// Leading zeros do not change a digit string's value.
pub proof fn lemma_zeros_prefix(ds: Seq<u8>, z: int)
    requires
        0 <= z <= ds.len(),
        forall|k: int| 0 <= k < z ==> ds[k] == 48,
    ensures
        digits_value(ds) == digits_value(ds.skip(z)),
    decreases ds.len(),
{
    if z == ds.len() {
        // all zeros: both sides are zero
        if z > 0 {
            lemma_zeros_prefix(ds.drop_last(), z - 1);
            assert(ds.drop_last().skip(z - 1) =~= Seq::<u8>::empty());
            assert(ds.skip(z) =~= Seq::<u8>::empty());
        }
    } else if z == 0 {
        assert(ds.skip(0) =~= ds);
    } else {
        // the zero prefix lies wholly within the front of the string
        lemma_zeros_prefix(ds.drop_last(), z);
        assert(ds.drop_last().skip(z) =~= ds.skip(z).drop_last());
    }
}

/// Concrete powers of ten around the id type's range.
proof fn lemma_pow10_values()
    ensures
        pow10(18) == 1_000_000_000_000_000_000,
        pow10(19) == 10_000_000_000_000_000_000,
{
    reveal_with_fuel(pow10, 21);
}

/// Parse one trimmed segment as an id: its value exactly when it is
/// an integer literal in range.
pub fn parse_i64(t: &[u8]) -> (r: Option<i64>)
    ensures
        r == token_to_i64(t@),
{
    let n = t.len();
    let has_sign = n > 0 && (t[0] == 43 || t[0] == 45);
    let neg = n > 0 && t[0] == 45;
    let start: usize = if has_sign {
        1
    } else {
        0
    };
    if start >= n {
        // empty, or a bare sign
        return Option::None;
    }
    let mut k = start;
    while k < n
        invariant
            start <= k <= n,
            n == t@.len(),
            has_sign == (t@.len() > 0 && (t@[0] == 43 || t@[0] == 45)),
            start == if has_sign {
                1int
            } else {
                0int
            },
            forall|j: int| start <= j < k ==> is_dec_digit(#[trigger] t@[j]),
        decreases n - k,
    {
        if !(48 <= t[k] && t[k] <= 57) {
            proof {
                assert(!is_dec_digit(t@[k as int]));
                if has_sign {
                    assert(t@.drop_first()[k - 1] == t@[k as int]);
                }
            }
            return Option::None;
        }
        k = k + 1;
    }
    let ghost body = t@.skip(start as int);
    assert(all_digits(body)) by {
        assert(forall|j: int| 0 <= j < body.len() ==> body[j] == t@[j + start]);
    }
    // skip leading zeros, so that length bounds the magnitude
    let mut z = start;
    while z < n && t[z] == 48
        invariant
            start <= z <= n,
            n == t@.len(),
            forall|j: int| start <= j < z ==> t@[j] == 48,
        decreases n - z,
    {
        z = z + 1;
    }
    proof {
        lemma_zeros_prefix(body, z - start);
        assert(body.skip(z - start) =~= t@.skip(z as int));
    }
    let ghost digits = t@.skip(z as int);
    if n - z > 19 {
        // at least twenty significant digits: out of range either way
        proof {
            assert(digits[0] == t@[z as int]);
            assert(forall|j: int| 0 <= j < digits.len() ==> #[trigger] digits[j] == t@[j + z]);
            lemma_digits_lower(digits);
            lemma_pow10_values();
            lemma_pow10_grows(19, (digits.len() - 1) as nat);
            assert(digits_value(body) == digits_value(digits));
            assert(digits_value(body) >= 10_000_000_000_000_000_000);
            if t@[0] == 45 {
                assert(token_value(t@) == -digits_value(body));
            } else if has_sign {
                assert(token_value(t@) == digits_value(body));
            } else {
                assert(body =~= t@);
            }
        }
        return Option::None;
    }
    let mut acc: i128 = 0;
    let mut k2 = z;
    while k2 < n
        invariant
            z <= k2 <= n,
            n == t@.len(),
            n - z <= 19,
            forall|j: int| z <= j < n ==> is_dec_digit(#[trigger] t@[j]),
            acc == digits_value(t@.subrange(z as int, k2 as int)),
            0 <= acc < pow10((k2 - z) as nat),
        decreases n - k2,
    {
        proof {
            lemma_pow10_values();
            lemma_pow10_grows((k2 - z) as nat, 18);
            assert(t@.subrange(z as int, k2 + 1).drop_last() =~= t@.subrange(
                z as int,
                k2 as int,
            ));
        }
        acc = acc * 10 + ((t[k2] - 48) as i128);
        k2 = k2 + 1;
    }
    proof {
        assert(t@.subrange(z as int, n as int) =~= digits);
    }
    let v: i128 = if neg {
        -acc
    } else {
        acc
    };
    proof {
        if neg {
            assert(t@[0] == 45);
            assert(token_value(t@) == -digits_value(body));
        } else if has_sign {
            assert(token_value(t@) == digits_value(body));
        } else {
            assert(body =~= t@);
        }
    }
    if v < i64::MIN as i128 || v > i64::MAX as i128 {
        return Option::None;
    }
    Option::Some(v as i64)
}

/// Powers of ten grow with the exponent.
proof fn lemma_pow10_grows(a: nat, b: nat)
    requires
        a <= b,
    ensures
        pow10(a) <= pow10(b),
        pow10(a) >= 1,
    decreases b,
{
    if a < b {
        lemma_pow10_grows(a, (b - 1) as nat);
    } else if b > 0 {
        lemma_pow10_grows((a - 1) as nat, (b - 1) as nat);
    }
}

/// The views of a list of byte buffers.
pub open spec fn seg_views(vs: Seq<Vec<u8>>) -> Seq<Seq<u8>> {
    vs.map(|k: int, v: Vec<u8>| v@)
}

/// Copy the bytes `[a, b)` of `s`.
fn copy_range(s: &[u8], a: usize, b: usize) -> (r: Vec<u8>)
    requires
        a <= b <= s@.len(),
    ensures
        r@ == s@.subrange(a as int, b as int),
{
    slice_to_vec(slice_subrange(s, a, b))
}

/// The position of the next comma at or after `from`, or the end.
fn scan_comma(s: &[u8], from: usize) -> (j: usize)
    requires
        from <= s@.len(),
    ensures
        j == seg_end(s@, from as int),
        from <= j <= s@.len(),
{
    let n = s.len();
    let mut j = from;
    while j < n && s[j] != 44
        invariant
            from <= j <= n,
            n == s@.len(),
            seg_end(s@, from as int) == seg_end(s@, j as int),
        decreases n - j,
    {
        j = j + 1;
    }
    j
}

/// Split `s` at every comma, keeping empty segments.
fn split_segments(s: &[u8]) -> (r: Vec<Vec<u8>>)
    ensures
        seg_views(r@) == split_commas(s@, 0),
{
    let n = s.len();
    let mut segs: Vec<Vec<u8>> = Vec::new();
    let mut i: usize = 0;
    loop
        invariant_except_break
            i <= n,
            n == s@.len(),
            split_commas(s@, 0) == seg_views(segs@) + split_commas(s@, i as int),
        ensures
            seg_views(segs@) == split_commas(s@, 0),
        decreases n - i,
    {
        let j = scan_comma(s, i);
        let piece = copy_range(s, i, j);
        let ghost pre = segs@;
        segs.push(piece);
        proof {
            assert(seg_views(segs@) =~= seg_views(pre) + seq![s@.subrange(i as int, j as int)]);
        }
        if j == n {
            proof {
                assert(split_commas(s@, i as int) =~= seq![s@.subrange(i as int, n as int)]);
                assert(seg_views(segs@) =~= split_commas(s@, 0));
            }
            break;
        }
        proof {
            assert(split_commas(s@, i as int) == seq![s@.subrange(i as int, j as int)]
                + split_commas(s@, j + 1));
            assert(seg_views(segs@) + split_commas(s@, j + 1) =~= seg_views(pre) + split_commas(
                s@,
                i as int,
            ));
        }
        i = j + 1;
    }
    segs
}

/// Trim ASCII whitespace off both ends of `s`.
fn trim_bytes(s: &[u8]) -> (r: Vec<u8>)
    ensures
        r@ == trim_spec(s@),
{
    let n = s.len();
    let mut lo: usize = 0;
    while lo < n && (s[lo] == 32 || (9 <= s[lo] && s[lo] <= 13))
        invariant
            lo <= n,
            n == s@.len(),
            forall|k: int| 0 <= k < lo ==> is_ascii_space(#[trigger] s@[k]),
        decreases n - lo,
    {
        lo = lo + 1;
    }
    let mut hi: usize = n;
    while hi > lo && (s[hi - 1] == 32 || (9 <= s[hi - 1] && s[hi - 1] <= 13))
        invariant
            lo <= hi <= n,
            n == s@.len(),
            forall|k: int| hi <= k < n ==> is_ascii_space(#[trigger] s@[k]),
        decreases hi,
    {
        hi = hi - 1;
    }
    proof {
        lemma_trim_window(s@, lo as int, hi as int);
    }
    copy_range(s, lo, hi)
}

/// Trimming removes exactly the whitespace margins: if everything
/// before `lo` and from `hi` on is whitespace and the window's edges
/// are not, the trimmed string is the window.
proof fn lemma_trim_window(s: Seq<u8>, lo: int, hi: int)
    requires
        0 <= lo <= hi <= s.len(),
        forall|k: int| 0 <= k < lo ==> is_ascii_space(#[trigger] s[k]),
        forall|k: int| hi <= k < s.len() ==> is_ascii_space(#[trigger] s[k]),
        lo == hi || (!is_ascii_space(s[lo]) && !is_ascii_space(s[hi - 1])),
    ensures
        trim_spec(s) == s.subrange(lo, hi),
    decreases s.len(),
{
    if s.len() == 0 {
        assert(s.subrange(0, 0) =~= s);
    } else if is_ascii_space(s[0]) {
        // the front byte goes; the window shifts left by one
        let tl = s.drop_first();
        assert(lo > 0 || lo == hi) by {
            if lo == 0 && lo < hi {
                assert(!is_ascii_space(s[lo]));
            }
        }
        if lo > 0 {
            lemma_trim_window(tl, lo - 1, hi - 1);
            assert(tl.subrange(lo - 1, hi - 1) =~= s.subrange(lo, hi));
        } else {
            // an all-whitespace string trims to nothing
            lemma_trim_window(tl, 0, 0);
            assert(tl.subrange(0, 0) =~= s.subrange(lo, hi));
        }
    } else if is_ascii_space(s.last()) {
        let init = s.drop_last();
        assert(hi < s.len() || lo == hi) by {
            if hi == s.len() && lo < hi {
                assert(!is_ascii_space(s[hi - 1]));
            }
        }
        if hi < s.len() {
            lemma_trim_window(init, lo, hi);
            assert(init.subrange(lo, hi) =~= s.subrange(lo, hi));
        } else {
            lemma_trim_window(init, lo, lo);
            assert(init.subrange(lo, lo) =~= s.subrange(lo, hi));
        }
    } else {
        assert(lo == 0 && hi == s.len()) by {
            if lo > 0 {
                assert(is_ascii_space(s[0]));
            }
            if hi < s.len() {
                assert(is_ascii_space(s.last()));
            }
        }
        assert(s.subrange(0, s.len() as int) =~= s);
    }
}

impl TelegramConfig {
    /// Parse the configured comma-separated chat-id list: the ids in
    /// order when every entry, once trimmed, is an integer in range,
    /// and nothing as soon as one entry is not.
    pub fn load_tracked_chat_ids(text: &str) -> (r: Option<Vec<i64>>)
        ensures
            ({
                let segs = split_commas(encode_utf8(text@), 0);
                match r {
                    Option::Some(ids) => {
                        &&& ids@.len() == segs.len()
                        &&& forall|k: int|
                            0 <= k < segs.len() ==> token_to_i64(trim_spec(#[trigger] segs[k]))
                                == Option::Some(ids@[k])
                    },
                    Option::None => exists|k: int|
                        0 <= k < segs.len() && token_to_i64(trim_spec(#[trigger] segs[k])) is None,
                }
            }),
    {
        let bytes = text.as_bytes();
        let segs = split_segments(bytes);
        let mut ids: Vec<i64> = Vec::new();
        let n = segs.len();
        let mut i: usize = 0;
        while i < n
            invariant
                i <= n,
                n == segs@.len(),
                seg_views(segs@) == split_commas(encode_utf8(text@), 0),
                ids@.len() == i,
                forall|k: int|
                    0 <= k < i ==> token_to_i64(trim_spec(seg_views(segs@)[k])) == Option::Some(
                        #[trigger] ids@[k],
                    ),
            decreases n - i,
        {
            let trimmed = trim_bytes(segs[i].as_slice());
            match parse_i64(trimmed.as_slice()) {
                Option::Some(v) => {
                    assert(token_to_i64(trim_spec(seg_views(segs@)[i as int])) == Option::Some(v));
                    ids.push(v);
                },
                Option::None => {
                    assert(token_to_i64(trim_spec(seg_views(segs@)[i as int])) is None);
                    return Option::None;
                },
            }
            i = i + 1;
        }
        Option::Some(ids)
    }
}

} // verus!
