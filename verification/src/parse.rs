use vstd::prelude::*;

verus! {

/// Error for a path segment that does not denote a non-negative integer
/// representable as an index.
#[derive(Clone, Copy, Debug, PartialEq, Eq, Structural)]
pub struct ParseError;

/// Whether `b` is an ASCII decimal digit.
pub open spec fn is_digit(b: u8) -> bool {
    48 <= b <= 57
}

/// Whether every byte of `s` is an ASCII decimal digit.
pub open spec fn all_digits(s: Seq<u8>) -> bool {
    forall|i: int| 0 <= i < s.len() ==> is_digit(#[trigger] s[i])
}

/// The number that a sequence of decimal digit bytes denotes, most
/// significant digit first.
pub open spec fn digits_value(s: Seq<u8>) -> nat
    decreases s.len(),
{
    if s.len() == 0 {
        0
    } else {
        digits_value(s.drop_last()) * 10 + (s.last() - 48) as nat
    }
}

/// The value of a digit string never shrinks as more digits follow: the
/// value of any prefix is at most the value of the whole.
proof fn lemma_digits_value_prefix_le(s: Seq<u8>, i: int)
    requires
        0 <= i <= s.len(),
        all_digits(s),
    ensures
        digits_value(s.subrange(0, i)) <= digits_value(s),
    decreases s.len() - i,
{
    if i < s.len() {
        assert(s.subrange(0, i + 1).drop_last() =~= s.subrange(0, i));
        assert(s.subrange(0, i + 1).last() == s[i]);
        assert(digits_value(s.subrange(0, i)) <= digits_value(s.subrange(0, i)) * 10 + (s[i]
            - 48) as nat);
        lemma_digits_value_prefix_le(s, i + 1);
    } else {
        assert(s.subrange(0, i) =~= s);
    }
}

/// Parse a raw path segment as a cell index: the whole of `raw` must be
/// one or more ASCII decimal digits denoting a number that fits in
/// `usize`. Anything else is a `ParseError`, exactly as the surrounding
/// server rejects a non-numeric path segment.
pub fn parse_index(raw: &[u8]) -> (r: Result<usize, ParseError>)
    ensures
        r is Ok <==> (raw@.len() > 0 && all_digits(raw@) && digits_value(raw@) <= usize::MAX),
        r is Ok ==> r->Ok_0 == digits_value(raw@),
{
    if raw.len() == 0 {
        return Err(ParseError);
    }
    let ghost s = raw@;
    let mut value: usize = 0;
    let mut i: usize = 0;
    while i < raw.len()
        invariant
            0 < s.len(),
            i <= s.len(),
            s == raw@,
            forall|j: int| 0 <= j < i ==> is_digit(#[trigger] s[j]),
            value == digits_value(s.subrange(0, i as int)),
        decreases s.len() - i,
    {
        let b = raw[i];
        if b < 48 || b > 57 {
            return Err(ParseError);
        }
        let d = (b - 48) as usize;
        proof {
            assert(s.subrange(0, i + 1).drop_last() =~= s.subrange(0, i as int));
            assert(s.subrange(0, i + 1).last() == s[i as int]);
        }
        let shifted = match value.checked_mul(10) {
            Some(v) => v,
            None => {
                proof {
                    if all_digits(s) {
                        lemma_digits_value_prefix_le(s, i + 1);
                    }
                }
                return Err(ParseError);
            },
        };
        value = match shifted.checked_add(d) {
            Some(v) => v,
            None => {
                proof {
                    if all_digits(s) {
                        lemma_digits_value_prefix_le(s, i + 1);
                    }
                }
                return Err(ParseError);
            },
        };
        i = i + 1;
    }
    proof {
        assert(s.subrange(0, s.len() as int) =~= s);
    }
    Ok(value)
}

} // verus!
