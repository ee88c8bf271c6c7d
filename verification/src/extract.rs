//! Candidate extraction: scanning free-form message text for substrings
//! shaped like base-58 token addresses.
//!
//! A candidate is a maximal run of base-58 bytes whose length lies
//! between [`MIN_ADDRESS_LEN`] and [`MAX_ADDRESS_LEN`]; candidates are
//! reported in order of appearance. A maximal run that is too short or
//! too long yields nothing.

use vstd::prelude::*;

use crate::text::ascii_seq;
use crate::text::ascii_bytes_to_string;

verus! {

/// Shortest run of base-58 bytes that counts as a candidate address.
pub const MIN_ADDRESS_LEN: usize = 32;

/// Longest run of base-58 bytes that counts as a candidate address.
pub const MAX_ADDRESS_LEN: usize = 44;

/// The base-58 alphabet: digits and letters without `0`, `O`, `I`, `l`,
/// written as the UTF-8 byte ranges `1`-`9`, `A`-`H`, `J`-`N`, `P`-`Z`,
/// `a`-`k`, `m`-`z`.
pub open spec fn spec_is_base58_byte(b: u8) -> bool {
    ||| (49 <= b && b <= 57)
    ||| (65 <= b && b <= 72)
    ||| (74 <= b && b <= 78)
    ||| (80 <= b && b <= 90)
    ||| (97 <= b && b <= 107)
    ||| (109 <= b && b <= 122)
}

/// Whether `b` belongs to the base-58 alphabet.
#[verifier::when_used_as_spec(spec_is_base58_byte)]
pub fn is_base58_byte(b: u8) -> (r: bool)
    ensures
        r == spec_is_base58_byte(b),
{
    (49 <= b && b <= 57)
    || (65 <= b && b <= 72)
    || (74 <= b && b <= 78)
    || (80 <= b && b <= 90)
    || (97 <= b && b <= 107)
    || (109 <= b && b <= 122)
}

/// A run of base-58 bytes `[i, j)` that cannot be extended either way.
pub open spec fn is_maximal_run(s: Seq<u8>, i: int, j: int) -> bool {
    &&& 0 <= i < j <= s.len()
    &&& forall|k: int| i <= k < j ==> spec_is_base58_byte(s[k])
    &&& (i == 0 || !spec_is_base58_byte(s[i - 1]))
    &&& (j == s.len() || !spec_is_base58_byte(s[j]))
}

/// A maximal run whose length fits the address shape.
pub open spec fn is_candidate_span(s: Seq<u8>, i: int, j: int) -> bool {
    &&& is_maximal_run(s, i, j)
    &&& MIN_ADDRESS_LEN <= j - i <= MAX_ADDRESS_LEN
}

/// Where the run of base-58 bytes beginning at `i` ends: the first
/// position at or after `i` that is past the end or not base-58.
pub open spec fn run_end(s: Seq<u8>, i: int) -> int
    decreases s.len() - i,
{
    if i >= s.len() || !spec_is_base58_byte(s[i]) {
        i
    } else {
        run_end(s, i + 1)
    }
}

/// The candidate spans `(start, end)` at or after position `i`,
/// in order of appearance.
pub open spec fn spec_candidate_spans(s: Seq<u8>, i: int) -> Seq<(int, int)>
    decreases s.len() - i,
{
    if i >= s.len() {
        Seq::empty()
    } else if spec_is_base58_byte(s[i]) && (i == 0 || !spec_is_base58_byte(s[i - 1])) {
        let j = run_end(s, i);
        let head: Seq<(int, int)> = if MIN_ADDRESS_LEN <= j - i <= MAX_ADDRESS_LEN {
            seq![(i, j)]
        } else {
            Seq::empty()
        };
        head + spec_candidate_spans(s, i + 1)
    } else {
        spec_candidate_spans(s, i + 1)
    }
}

/// `run_end` stays within bounds and delimits a run: everything from `i`
/// up to it is base-58, and it stops only at the end or at a byte that
/// is not base-58.
pub proof fn lemma_run_end(s: Seq<u8>, i: int)
    requires
        0 <= i <= s.len(),
    ensures
        i <= run_end(s, i) <= s.len(),
        forall|k: int| i <= k < run_end(s, i) ==> spec_is_base58_byte(s[k]),
        run_end(s, i) == s.len() || !spec_is_base58_byte(s[run_end(s, i)]),
    decreases s.len() - i,
{
    if i < s.len() && spec_is_base58_byte(s[i]) {
        lemma_run_end(s, i + 1);
    }
}

/// A maximal run beginning at `i` can only end at `run_end(s, i)`.
pub proof fn lemma_run_end_unique(s: Seq<u8>, i: int, j: int)
    requires
        is_maximal_run(s, i, j),
    ensures
        j == run_end(s, i),
{
    lemma_run_end(s, i);
    let e = run_end(s, i);
    if j < e {
        assert(!spec_is_base58_byte(s[j]) && spec_is_base58_byte(s[j]));
    }
    if e < j {
        assert(!spec_is_base58_byte(s[e]) && spec_is_base58_byte(s[e]));
    }
}

/// Positions strictly inside a run start no candidate: the spans found
/// from there are the spans found from the end of the run.
proof fn lemma_spans_skip_run(s: Seq<u8>, i: int, j: int)
    requires
        0 <= i <= j <= s.len(),
        forall|k: int| i <= k < j ==> spec_is_base58_byte(s[k]),
        0 < i,
        spec_is_base58_byte(s[i - 1]),
    ensures
        spec_candidate_spans(s, i) == spec_candidate_spans(s, j),
    decreases j - i,
{
    if i < j {
        lemma_spans_skip_run(s, i + 1, j);
    }
}

/// Soundness and ordering of the spans: each is a candidate span lying
/// at or after `i`, and they appear in strictly left-to-right order
/// without overlap.
pub proof fn lemma_spans_sound(s: Seq<u8>, i: int)
    requires
        0 <= i <= s.len(),
    ensures
        forall|k: int| 0 <= k < spec_candidate_spans(s, i).len() ==> {
            let sp = #[trigger] spec_candidate_spans(s, i)[k];
            is_candidate_span(s, sp.0, sp.1) && i <= sp.0
        },
        forall|k: int| 0 <= k && k + 1 < spec_candidate_spans(s, i).len() ==> (
            #[trigger] spec_candidate_spans(s, i)[k]).1 <= spec_candidate_spans(s, i)[k + 1].0,
    decreases s.len() - i,
{
    if i < s.len() {
        lemma_spans_sound(s, i + 1);
        let spans = spec_candidate_spans(s, i);
        let rest = spec_candidate_spans(s, i + 1);
        if spec_is_base58_byte(s[i]) && (i == 0 || !spec_is_base58_byte(s[i - 1])) {
            let j = run_end(s, i);
            lemma_run_end(s, i);
            if MIN_ADDRESS_LEN <= j - i <= MAX_ADDRESS_LEN {
                assert(is_maximal_run(s, i, j));
                assert(spans == seq![(i, j)] + rest);
                // every span in the tail starts past the run's end
                assert forall|k: int| 0 <= k && k + 1 < spans.len() implies (
                    #[trigger] spans[k]).1 <= spans[k + 1].0 by {
                    if k == 0 {
                        assert(spans[0] == (i, j));
                        assert(spans[1] == rest[0]);
                        let sp = rest[0];
                        assert(is_candidate_span(s, sp.0, sp.1) && i + 1 <= sp.0);
                        if sp.0 < j {
                            // a candidate cannot start inside or at the
                            // tail of the run beginning at i
                            assert(spec_is_base58_byte(s[sp.0 - 1]));
                            assert(false);
                        }
                    } else {
                        assert(spans[k] == (seq![(i, j)] + rest)[k]);
                        assert((seq![(i, j)] + rest)[k] == rest[k - 1]);
                        assert(spans[k + 1] == (seq![(i, j)] + rest)[k + 1]);
                        assert((seq![(i, j)] + rest)[k + 1] == rest[k]);
                        assert(rest[k - 1].1 <= rest[k].0);
                    }
                }
            }
        }
    }
}

/// Completeness: every candidate span at or after `i` is reported.
pub proof fn lemma_spans_complete(s: Seq<u8>, i: int, a: int, b: int)
    requires
        0 <= i <= s.len(),
        is_candidate_span(s, a, b),
        i <= a,
    ensures
        spec_candidate_spans(s, i).contains((a, b)),
    decreases s.len() - i,
{
    let spans = spec_candidate_spans(s, i);
    if i == a {
        lemma_run_end_unique(s, a, b);
        assert(spans[0] == (a, b));
    } else {
        lemma_spans_complete(s, i + 1, a, b);
        let rest = spec_candidate_spans(s, i + 1);
        let k = choose|k: int| 0 <= k < rest.len() && rest[k] == (a, b);
        if i < s.len() && spec_is_base58_byte(s[i]) && (i == 0 || !spec_is_base58_byte(s[i - 1])) {
            let j = run_end(s, i);
            if MIN_ADDRESS_LEN <= j - i <= MAX_ADDRESS_LEN {
                assert(spans[k + 1] == (a, b));
            } else {
                assert(spans[k] == (a, b));
            }
        } else {
            assert(spans[k] == (a, b));
        }
    }
}

/// The boundary law: a maximal base-58 run is reported exactly when its
/// length lies between the address bounds — a run of 31 or 45 bytes is
/// never a candidate, one of 32 or 44 always is.
pub proof fn lemma_boundary_lengths(s: Seq<u8>, a: int, b: int)
    requires
        is_maximal_run(s, a, b),
    ensures
        spec_candidate_spans(s, 0).contains((a, b)) <==> (MIN_ADDRESS_LEN <= b - a
            <= MAX_ADDRESS_LEN),
{
    if MIN_ADDRESS_LEN <= b - a <= MAX_ADDRESS_LEN {
        lemma_spans_complete(s, 0, a, b);
    }
    if spec_candidate_spans(s, 0).contains((a, b)) {
        lemma_spans_sound(s, 0);
        let k = choose|k: int|
            0 <= k < spec_candidate_spans(s, 0).len() && spec_candidate_spans(s, 0)[k] == (a, b);
        assert(is_candidate_span(s, a, b));
    }
}

/// A candidate address found in message text: the matched substring and
/// the byte position where the match begins.
pub struct Candidate {
    /// The matched text, a run of base-58 characters.
    pub text: String,
    /// Byte offset of the first matched byte in the scanned text.
    pub start: usize,
}

impl Candidate {
    /// The span `(start, end)` of the match in the scanned text.
    pub open spec fn span(self) -> (int, int) {
        (self.start as int, self.start + self.text@.len())
    }
}

/// The spans of a sequence of candidates.
pub open spec fn candidate_spans(cs: Seq<Candidate>) -> Seq<(int, int)> {
    cs.map(|k: int, c: Candidate| c.span())
}

/// Scan `text` for candidate addresses: every maximal run of base-58
/// bytes whose length lies between `MIN_ADDRESS_LEN` and
/// `MAX_ADDRESS_LEN`, in order of appearance, with the matched bytes
/// carried along as a string.
pub fn extract_candidates(text: &[u8]) -> (r: Vec<Candidate>)
    ensures
        candidate_spans(r@) == spec_candidate_spans(text@, 0),
        forall|k: int| 0 <= k < r@.len() ==> (#[trigger] r@[k]).text@
            == ascii_seq(text@.subrange(r@[k].span().0, r@[k].span().1)),
{
    let n = text.len();
    let mut out: Vec<Candidate> = Vec::new();
    let mut i: usize = 0;
    while i < n
        invariant
            n == text@.len(),
            i <= n,
            i == 0 || i == n || !spec_is_base58_byte(text@[i - 1])
                || !spec_is_base58_byte(text@[i as int]),
            spec_candidate_spans(text@, 0)
                == candidate_spans(out@) + spec_candidate_spans(text@, i as int),
            forall|k: int| 0 <= k < out@.len() ==> (#[trigger] out@[k]).text@
                == ascii_seq(text@.subrange(out@[k].span().0, out@[k].span().1)),
        decreases n - i,
    {
        if is_base58_byte(text[i]) {
            // a run starts here: the previous byte, if any, is not base-58
            let start = i;
            i = i + 1;
            while i < n && is_base58_byte(text[i])
                invariant
                    n == text@.len(),
                    start < i <= n,
                    forall|k: int| start <= k < i ==> spec_is_base58_byte(text@[k]),
                decreases n - i,
            {
                i = i + 1;
            }
            proof {
                lemma_run_end(text@, start as int);
                lemma_run_end_unique(text@, start as int, i as int);
            }
            let ghost pre = out@;
            if MIN_ADDRESS_LEN <= i - start && i - start <= MAX_ADDRESS_LEN {
                let piece = ascii_bytes_to_string(&text[start..i]);
                out.push(Candidate { text: piece, start });
            }
            proof {
                if start + 1 < i {
                    lemma_spans_skip_run(text@, start + 1, i as int);
                }
                assert(candidate_spans(out@) + spec_candidate_spans(text@, i as int)
                    =~= candidate_spans(pre) + spec_candidate_spans(text@, start as int));
            }
        } else {
            i = i + 1;
        }
    }
    out
}

/// The extraction law: the reported spans are exactly the maximal
/// base-58 runs of address length, each reported once, ordered strictly
/// left to right.
pub proof fn lemma_extraction_exact(s: Seq<u8>)
    ensures
        forall|k: int| 0 <= k < spec_candidate_spans(s, 0).len() ==> {
            let sp = #[trigger] spec_candidate_spans(s, 0)[k];
            is_candidate_span(s, sp.0, sp.1)
        },
        forall|a: int, b: int| is_candidate_span(s, a, b)
            ==> spec_candidate_spans(s, 0).contains((a, b)),
        forall|k: int| 0 <= k && k + 1 < spec_candidate_spans(s, 0).len() ==> (
            #[trigger] spec_candidate_spans(s, 0)[k]).1 <= spec_candidate_spans(s, 0)[k + 1].0,
{
    lemma_spans_sound(s, 0);
    assert forall|a: int, b: int| is_candidate_span(s, a, b)
        implies spec_candidate_spans(s, 0).contains((a, b)) by {
        lemma_spans_complete(s, 0, a, b);
    }
}

} // verus!
