//! The event stream the main loop consumes, the decision the periodic
//! poll producer takes at each wake, and the startup parsing of the
//! refresh interval that drives that producer.

use vstd::prelude::*;
use crate::key::Key;

verus! {

/// One event of the aggregated stream: a keystroke, freshly polled
/// kernel log content, or a periodic tick with nothing new.
#[derive(Debug)]
pub enum Event {
    Input(Key),
    Kernel(String),
    Tick,
}

/// The decision of the poll producer at each wake: fresh log content
/// becomes a kernel event carrying it; otherwise the wake is reported as
/// a plain tick.
pub fn poll_event(new_logs: Option<String>) -> (r: Event)
    ensures
        new_logs is Some ==> r == Event::Kernel(new_logs->Some_0),
        new_logs is None ==> r == Event::Tick,
{
    match new_logs {
        Option::Some(s) => Event::Kernel(s),
        Option::None => Event::Tick,
    }
}

/// The refresh interval used when none is given, in milliseconds.
pub const DEFAULT_REFRESH_RATE_MS: u64 = 250;

/// Whether a byte is an ASCII decimal digit.
pub open spec fn is_digit_byte(b: u8) -> bool {
    48 <= b && b <= 57
}

/// Numeric value of an ASCII decimal digit byte.
pub open spec fn digit_byte_value(b: u8) -> int {
    b - 48
}

/// Whether every byte of the sequence is an ASCII decimal digit.
pub open spec fn all_digits(s: Seq<u8>) -> bool {
    forall|i: int| 0 <= i < s.len() ==> is_digit_byte(#[trigger] s[i])
}

/// The number a sequence of ASCII decimal digits denotes.
pub open spec fn decimal_value(s: Seq<u8>) -> int
    decreases s.len(),
{
    if s.len() == 0 {
        0
    } else {
        decimal_value(s.drop_last()) * 10 + digit_byte_value(s.last())
    }
}

/// Whether a byte string is an acceptable refresh interval: nonempty,
/// all decimal digits, positive, and within 64 bits.
pub open spec fn valid_interval(s: Seq<u8>) -> bool {
    &&& s.len() > 0
    &&& all_digits(s)
    &&& 0 < decimal_value(s)
    &&& decimal_value(s) <= u64::MAX
}

proof fn lemma_decimal_nonneg(s: Seq<u8>)
    requires
        all_digits(s),
    ensures
        decimal_value(s) >= 0,
    decreases s.len(),
{
    if s.len() > 0 {
        assert(all_digits(s.drop_last()));
        lemma_decimal_nonneg(s.drop_last());
    }
}

proof fn lemma_decimal_prefix_le(s: Seq<u8>, n: int)
    requires
        all_digits(s),
        0 <= n <= s.len(),
    ensures
        decimal_value(s.subrange(0, n)) <= decimal_value(s),
    decreases s.len(),
{
    if n == s.len() {
        assert(s.subrange(0, n) =~= s);
    } else {
        let dl = s.drop_last();
        assert(all_digits(dl));
        assert(s.subrange(0, n) =~= dl.subrange(0, n));
        lemma_decimal_prefix_le(dl, n);
        lemma_decimal_nonneg(dl);
    }
}

/// Parse the refresh interval given at startup: accepted exactly when the
/// argument is a nonempty string of decimal digits denoting a positive
/// value that fits in 64 bits, and then equal to that value.
pub fn parse_interval(s: &[u8]) -> (r: Option<u64>)
    ensures
        r is Some <==> valid_interval(s@),
        r is Some ==> r->Some_0 == decimal_value(s@),
{
    if s.len() == 0 {
        return Option::None;
    }
    let mut value: u64 = 0;
    let mut i: usize = 0;
    while i < s.len()
        invariant
            0 <= i <= s@.len(),
            all_digits(s@.subrange(0, i as int)),
            value == decimal_value(s@.subrange(0, i as int)),
        decreases s@.len() - i,
    {
        let b: u8 = s[i];
        if b < 48 || b > 57 {
            return Option::None;
        }
        let d: u64 = (b - 48) as u64;
        proof {
            let pre = s@.subrange(0, i + 1);
            assert(pre.drop_last() =~= s@.subrange(0, i as int));
            assert(pre.last() == s@[i as int]);
            assert(all_digits(pre));
        }
        let overflown: bool = match value.checked_mul(10) {
            Option::Some(v10) => match v10.checked_add(d) {
                Option::Some(v) => {
                    value = v;
                    false
                },
                Option::None => true,
            },
            Option::None => true,
        };
        if overflown {
            proof {
                let pre = s@.subrange(0, i + 1);
                assert(decimal_value(pre) > u64::MAX);
                if valid_interval(s@) {
                    lemma_decimal_prefix_le(s@, i + 1);
                    assert(false);
                }
            }
            return Option::None;
        }
        i += 1;
    }
    proof {
        assert(s@.subrange(0, i as int) =~= s@);
    }
    if value == 0 {
        return Option::None;
    }
    Option::Some(value)
}

} // verus!
