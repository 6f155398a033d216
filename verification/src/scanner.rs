//! The scanner: a single finite-state pass over raw bytes that classifies
//! them into structural tokens, number literals and string-content bytes.
//!
//! The executable entry point is [`scan`]; its behaviour is pinned down by
//! the specification-level state machine (`step_spec` folded over the input
//! by `scan_prefix`, followed by the end-of-input flush in `scan_spec`).
//! The scanner is total: any byte sequence, well-formed JSON or not, yields
//! a result. Arithmetic on the accumulators deliberately uses 64-bit
//! wraparound semantics; nothing detects overflow.

use vstd::prelude::*;

verus! {

use vstd::wrapping::i64_specs;

/// The four aggregate counters produced by one scan: structural token count,
/// number-literal count, signed sum of the number literals, and count of
/// string-content bytes.
#[derive(Clone, Copy, Debug, PartialEq, Eq, Structural)]
pub struct Counts {
    pub token_count: i64,
    pub number_count: i64,
    pub number_sum: i64,
    pub string_byte_count: i64,
}

/// The transient state of one scan: which mode the machine is in (string,
/// number, or neutral), the escape and unicode-skip sub-state of string mode,
/// the sign and magnitude of a number literal under construction, and the
/// counters accumulated so far.
pub struct ScanState {
    pub in_string: bool,
    pub escape: bool,
    pub unicode_digits: i32,
    pub in_number: bool,
    pub sign: i64,
    pub value: i64,
    pub counts: Counts,
}

/// The byte `"`.
pub const QUOTE: u8 = 34;

/// The byte `\`.
pub const BACKSLASH: u8 = 92;

/// The byte `u`, which after a backslash introduces a 4-hex-digit escape.
pub const UNICODE_MARKER: u8 = 117;

/// The byte `-`.
pub const MINUS: u8 = 45;

/// The byte `0`.
pub const DIGIT_ZERO: u8 = 48;

/// The byte `9`.
pub const DIGIT_NINE: u8 = 57;

/// The byte `{`.
pub const LEFT_BRACE: u8 = 123;

/// The byte `}`.
pub const RIGHT_BRACE: u8 = 125;

/// The byte `[`.
pub const LEFT_BRACKET: u8 = 91;

/// The byte `]`.
pub const RIGHT_BRACKET: u8 = 93;

/// The byte `:`.
pub const COLON: u8 = 58;

/// The byte `,`.
pub const COMMA: u8 = 44;

/// An ASCII decimal digit.
pub open spec fn is_digit_spec(ch: u8) -> bool {
    DIGIT_ZERO <= ch && ch <= DIGIT_NINE
}

/// One of the six JSON structural bytes `{ } [ ] : ,`.
pub open spec fn is_structural_spec(ch: u8) -> bool {
    ch == LEFT_BRACE || ch == RIGHT_BRACE || ch == LEFT_BRACKET || ch == RIGHT_BRACKET
        || ch == COLON || ch == COMMA
}

/// The state a scan starts from: neutral mode, all counters zero, sign +1.
pub open spec fn init_spec() -> ScanState {
    ScanState {
        in_string: false,
        escape: false,
        unicode_digits: 0,
        in_number: false,
        sign: 1,
        value: 0,
        counts: Counts { token_count: 0, number_count: 0, number_sum: 0, string_byte_count: 0 },
    }
}

/// Finalizing a number literal: add `sign * value` (with 64-bit wraparound)
/// to the running sum, count the literal, and return to neutral mode.
pub open spec fn flush_spec(s: ScanState) -> ScanState {
    ScanState {
        in_number: false,
        sign: 1,
        value: 0,
        counts: Counts {
            number_count: i64_specs::wrapping_add(s.counts.number_count, 1),
            number_sum: i64_specs::wrapping_add(
                s.counts.number_sum,
                i64_specs::wrapping_mul(s.sign, s.value),
            ),
            ..s.counts
        },
        ..s
    }
}

/// One transition of the state machine on the byte `ch`.
///
/// In string mode: pending unicode digits are skipped uninterpreted, an
/// escaped byte counts once toward string content (and `\u` arms the 4-digit
/// skip), `\` arms an escape, an unescaped `"` leaves string mode, and any
/// other byte counts as content. Outside string mode: a number literal is
/// extended by digits and finalized by the first non-digit, which is then
/// reprocessed under the neutral rules in the same transition; in neutral
/// mode `"` enters string mode, `-` or a digit enters number mode, a
/// structural byte is counted, and everything else is ignored.
pub open spec fn step_spec(s: ScanState, ch: u8) -> ScanState {
    if s.in_string {
        if s.unicode_digits > 0 {
            ScanState { unicode_digits: (s.unicode_digits - 1) as i32, ..s }
        } else if s.escape {
            ScanState {
                escape: false,
                unicode_digits: if ch == UNICODE_MARKER { 4 } else { s.unicode_digits },
                counts: Counts {
                    string_byte_count: i64_specs::wrapping_add(s.counts.string_byte_count, 1),
                    ..s.counts
                },
                ..s
            }
        } else if ch == BACKSLASH {
            ScanState { escape: true, ..s }
        } else if ch == QUOTE {
            ScanState { in_string: false, ..s }
        } else {
            ScanState {
                counts: Counts {
                    string_byte_count: i64_specs::wrapping_add(s.counts.string_byte_count, 1),
                    ..s.counts
                },
                ..s
            }
        }
    } else {
        let t = if s.in_number && !is_digit_spec(ch) {
            flush_spec(s)
        } else {
            s
        };
        if t.in_number {
            ScanState {
                value: i64_specs::wrapping_add(
                    i64_specs::wrapping_mul(t.value, 10),
                    (ch - DIGIT_ZERO) as i64,
                ),
                ..t
            }
        } else if ch == QUOTE {
            ScanState { in_string: true, ..t }
        } else if ch == MINUS {
            ScanState { in_number: true, sign: -1i64, value: 0, ..t }
        } else if is_digit_spec(ch) {
            ScanState { in_number: true, sign: 1, value: (ch - DIGIT_ZERO) as i64, ..t }
        } else if is_structural_spec(ch) {
            ScanState {
                counts: Counts {
                    token_count: i64_specs::wrapping_add(t.counts.token_count, 1),
                    ..t.counts
                },
                ..t
            }
        } else {
            t
        }
    }
}

/// The state of the machine after consuming the first `n` bytes of `bytes`.
pub open spec fn scan_prefix(bytes: Seq<u8>, n: int) -> ScanState
    decreases n,
{
    if n <= 0 {
        init_spec()
    } else {
        step_spec(scan_prefix(bytes, n - 1), bytes[n - 1])
    }
}

/// What one scan of `bytes` returns: the counters after every byte has been
/// consumed, with a pending number literal finalized by the end-of-input
/// flush. An unterminated string gets no flush.
pub open spec fn scan_spec(bytes: Seq<u8>) -> Counts {
    let s = scan_prefix(bytes, bytes.len() as int);
    if s.in_number {
        flush_spec(s).counts
    } else {
        s.counts
    }
}

/// Bounds the counters accumulated over a prefix of the input: each byte
/// contributes at most 1 to the token counter, at most 1 to the string-byte
/// counter, and at most 1 to the number counter (counting a literal still
/// under construction), so none of those three counters can wrap as long as
/// the input length stays within the 64-bit signed range.
pub proof fn lemma_prefix_counter_bounds(bytes: Seq<u8>, n: int)
    requires
        0 <= n <= bytes.len(),
        bytes.len() <= i64::MAX,
    ensures
        0 <= scan_prefix(bytes, n).counts.token_count <= n,
        0 <= scan_prefix(bytes, n).counts.string_byte_count <= n,
        0 <= scan_prefix(bytes, n).counts.number_count,
        scan_prefix(bytes, n).counts.number_count + (if scan_prefix(bytes, n).in_number {
            1int
        } else {
            0int
        }) <= n,
    decreases n,
{
    if n > 0 {
        lemma_prefix_counter_bounds(bytes, n - 1);
    }
}

/// The token, number and string-byte counters of a scan are non-negative;
/// the number sum carries no such constraint. The bound on the input length
/// only rules out sequences so long that a counter incremented once per byte
/// could wrap around; no buffer that fits in memory reaches it.
pub proof fn lemma_counters_nonnegative(bytes: Seq<u8>)
    requires
        bytes.len() <= i64::MAX,
    ensures
        0 <= scan_spec(bytes).token_count,
        0 <= scan_spec(bytes).number_count,
        0 <= scan_spec(bytes).string_byte_count,
{
    lemma_prefix_counter_bounds(bytes, bytes.len() as int);
}

/// Purity: the scanner is a function of the input bytes alone, so two scans
/// of the same input yield identical result tuples.
pub proof fn lemma_scan_deterministic(a: Seq<u8>, b: Seq<u8>)
    requires
        a == b,
    ensures
        scan_spec(a) == scan_spec(b),
{
}

/// The scan-state invariant: string mode and number mode are mutually
/// exclusive, the escape and unicode-skip sub-states occur only inside a
/// string, the unicode-skip counter stays within 0 to 4, and the sign is
/// always +1 or -1.
pub proof fn lemma_state_invariant(bytes: Seq<u8>, n: int)
    ensures
        !(scan_prefix(bytes, n).in_string && scan_prefix(bytes, n).in_number),
        scan_prefix(bytes, n).escape ==> scan_prefix(bytes, n).in_string,
        scan_prefix(bytes, n).unicode_digits > 0 ==> scan_prefix(bytes, n).in_string,
        0 <= scan_prefix(bytes, n).unicode_digits <= 4,
        scan_prefix(bytes, n).sign == 1 || scan_prefix(bytes, n).sign == -1,
    decreases n,
{
    if n > 0 {
        lemma_state_invariant(bytes, n - 1);
    }
}

/// Whether `ch` is an ASCII decimal digit.
pub fn is_digit(ch: u8) -> (r: bool)
    ensures
        r == is_digit_spec(ch),
{
    ch >= DIGIT_ZERO && ch <= DIGIT_NINE
}

/// Whether `ch` is one of the six JSON structural bytes.
pub fn is_structural(ch: u8) -> (r: bool)
    ensures
        r == is_structural_spec(ch),
{
    ch == LEFT_BRACE || ch == RIGHT_BRACE || ch == LEFT_BRACKET || ch == RIGHT_BRACKET
        || ch == COLON || ch == COMMA
}

/// Finalizes the number literal under construction, exactly as `flush_spec`
/// describes.
fn flush_number(st: &mut ScanState)
    ensures
        *final(st) == flush_spec(*old(st)),
{
    st.counts.number_sum = st.counts.number_sum.wrapping_add(st.sign.wrapping_mul(st.value));
    st.counts.number_count = st.counts.number_count.wrapping_add(1);
    st.in_number = false;
    st.sign = 1;
    st.value = 0;
}

/// Scans `bytes` once and returns the four counters.
///
/// Total over all byte sequences: malformed input silently yields whatever
/// the state machine produces. Deterministic: the result is exactly
/// `scan_spec(bytes@)`, a function of the input bytes alone.
pub fn scan(bytes: &[u8]) -> (r: Counts)
    ensures
        r == scan_spec(bytes@),
{
    let mut st = ScanState {
        in_string: false,
        escape: false,
        unicode_digits: 0,
        in_number: false,
        sign: 1,
        value: 0,
        counts: Counts { token_count: 0, number_count: 0, number_sum: 0, string_byte_count: 0 },
    };
    let mut i: usize = 0;
    while i < bytes.len()
        invariant
            i <= bytes@.len(),
            st == scan_prefix(bytes@, i as int),
        decreases bytes@.len() - i,
    {
        let ch = bytes[i];
        if st.in_string {
            if st.unicode_digits > 0 {
                st.unicode_digits = st.unicode_digits - 1;
            } else if st.escape {
                st.escape = false;
                if ch == UNICODE_MARKER {
                    st.unicode_digits = 4;
                }
                st.counts.string_byte_count = st.counts.string_byte_count.wrapping_add(1);
            } else if ch == BACKSLASH {
                st.escape = true;
            } else if ch == QUOTE {
                st.in_string = false;
            } else {
                st.counts.string_byte_count = st.counts.string_byte_count.wrapping_add(1);
            }
        } else {
            if st.in_number && !is_digit(ch) {
                flush_number(&mut st);
            }
            if st.in_number {
                st.value = st.value.wrapping_mul(10).wrapping_add((ch - DIGIT_ZERO) as i64);
            } else if ch == QUOTE {
                st.in_string = true;
            } else if ch == MINUS {
                st.in_number = true;
                st.sign = -1;
                st.value = 0;
            } else if is_digit(ch) {
                st.in_number = true;
                st.sign = 1;
                st.value = (ch - DIGIT_ZERO) as i64;
            } else if is_structural(ch) {
                st.counts.token_count = st.counts.token_count.wrapping_add(1);
            }
        }
        i = i + 1;
    }
    if st.in_number {
        flush_number(&mut st);
    }
    st.counts
}

} // verus!

