//! The environment handshake of an inherited session.
//!
//! A process spawned by a running engine finds two descriptor numbers in
//! well-known environment variables.  Reading the environment is I/O and
//! stays outside the library; the decision — both values present and both
//! parsing as descriptor numbers, or else no session — is verified here.

use vstd::prelude::*;
use vstd::utf8::encode_utf8;

use crate::error::Error;

verus! {

/// True of the bytes `'0'` through `'9'`.
pub open spec fn is_ascii_digit_byte(b: u8) -> bool {
    48 <= b <= 57
}

/// The number written by a sequence of decimal digit bytes.
pub open spec fn digits_value(b: Seq<u8>) -> int
    decreases b.len(),
{
    if b.len() == 0 {
        0
    } else {
        digits_value(b.drop_last()) * 10 + (b.last() - 48)
    }
}

/// True when every byte is a decimal digit.
pub open spec fn all_digits(b: Seq<u8>) -> bool {
    forall|i: int| 0 <= i < b.len() ==> is_ascii_digit_byte(#[trigger] b[i])
}

/// What parsing the bytes of a string as a decimal `i32` yields: an optional
/// sign, then one or more digits, refused on anything else or on a value out
/// of range.
pub open spec fn parse_i32_spec(b: Seq<u8>) -> Option<i32> {
    let negative = b.len() > 0 && b[0] == 45;
    let digits = if b.len() > 0 && (b[0] == 43 || b[0] == 45) {
        b.drop_first()
    } else {
        b
    };
    if digits.len() == 0 || !all_digits(digits) {
        None
    } else {
        let value = if negative {
            -digits_value(digits)
        } else {
            digits_value(digits)
        };
        if -0x8000_0000 <= value <= 0x7FFF_FFFF {
            Some(value as i32)
        } else {
            None
        }
    }
}

proof fn lemma_digits_value_nonneg(b: Seq<u8>)
    requires
        all_digits(b),
    ensures
        digits_value(b) >= 0,
    decreases b.len(),
{
    if b.len() > 0 {
        assert(all_digits(b.drop_last())) by {
            assert(forall|i: int|
                0 <= i < b.len() - 1 ==> #[trigger] b.drop_last()[i] == b[i]);
        }
        lemma_digits_value_nonneg(b.drop_last());
    }
}

proof fn lemma_digits_value_prefix(b: Seq<u8>, j: int)
    requires
        all_digits(b),
        0 <= j <= b.len(),
    ensures
        digits_value(b.subrange(0, j)) <= digits_value(b),
    decreases b.len() - j,
{
    if j == b.len() {
        assert(b.subrange(0, j) =~= b);
    } else {
        let shorter = b.subrange(0, j);
        let longer = b.subrange(0, j + 1);
        assert(longer.drop_last() =~= shorter);
        assert(all_digits(shorter) && all_digits(longer)) by {
            assert(forall|i: int| 0 <= i < j ==> #[trigger] shorter[i] == b[i]);
            assert(forall|i: int| 0 <= i < j + 1 ==> #[trigger] longer[i] == b[i]);
        }
        lemma_digits_value_nonneg(shorter);
        lemma_digits_value_prefix(b, j + 1);
    }
}

/// Parses a decimal `i32` from the bytes of the given text: an optional
/// leading sign, then one or more digits, with anything else — or a value
/// outside the `i32` range — refused.
#[verifier::rlimit(50)]
pub fn parse_i32(s: &str) -> (r: Option<i32>)
    ensures
        r == parse_i32_spec(encode_utf8(s@)),
{
    let b = s.as_bytes();
    let n = b.len();
    if n == 0 {
        return None;
    }
    let first = b[0];
    let negative = first == 45;
    let start: usize = if first == 45 || first == 43 {
        1
    } else {
        0
    };
    let ghost digits = if b@[0] == 43 || b@[0] == 45 {
        b@.drop_first()
    } else {
        b@
    };
    proof {
        assert(digits =~= b@.subrange(start as int, n as int));
    }
    if start == n {
        return None;
    }
    let mut i = start;
    let mut acc: i64 = 0;
    while i < n
        invariant
            start <= i <= n,
            n == b@.len(),
            b@ == encode_utf8(s@),
            digits == (if b@.len() > 0 && (b@[0] == 43 || b@[0] == 45) {
                b@.drop_first()
            } else {
                b@
            }),
            digits =~= b@.subrange(start as int, n as int),
            all_digits(b@.subrange(start as int, i as int)),
            acc == digits_value(b@.subrange(start as int, i as int)),
            0 <= acc <= 0x8000_0000,
        decreases n - i,
    {
        let d = b[i];
        if d < 48 || d > 57 {
            proof {
                assert(digits[i - start] == b@[i as int]);
                assert(!all_digits(digits));
            }
            return None;
        }
        let ghost before = b@.subrange(start as int, i as int);
        let ghost after = b@.subrange(start as int, i + 1 as int);
        proof {
            assert(after.drop_last() =~= before);
            assert(all_digits(after)) by {
                assert(forall|k: int|
                    0 <= k < after.len() ==> #[trigger] after[k] == b@[start + k]);
            }
        }
        acc = acc * 10 + ((d - 48) as i64);
        if acc > 0x8000_0000i64 {
            proof {
                assert(after.last() == b@[i as int]);
                assert(digits_value(after) == digits_value(before) * 10 + (d - 48));
                if all_digits(digits) {
                    assert(after =~= digits.subrange(0, i + 1 - start));
                    lemma_digits_value_prefix(digits, i + 1 - start);
                    assert(digits_value(digits) >= digits_value(after));
                }
            }
            return None;
        }
        i += 1;
    }
    proof {
        assert(b@.subrange(start as int, n as int) =~= digits);
    }
    if negative {
        Some((-acc) as i32)
    } else if acc > 0x7FFF_FFFFi64 {
        None
    } else {
        Some(acc as i32)
    }
}

/// What the two environment readings amount to: a descriptor number, or
/// nothing where the variable is unset or does not parse.
pub open spec fn env_fd(v: Option<String>) -> Option<i32> {
    match v {
        Some(s) => parse_i32_spec(encode_utf8(s@)),
        None => None,
    }
}

/// The open decision of the inherited transport, taken over the values of
/// the two well-known environment variables: both must be present and parse
/// as descriptor numbers, or there is no session to attach to — an outcome
/// distinct from every other way of failing to open a transport.
pub fn inherited_fds(f_in: Option<String>, f_out: Option<String>) -> (r: Result<
    (i32, i32),
    Error,
>)
    ensures
        ({
            match (env_fd(f_in), env_fd(f_out)) {
                (Some(a), Some(b)) => r == Ok::<(i32, i32), Error>((a, b)),
                _ => r matches Err(e) && e == Error::NoSession,
            }
        }),
{
    let pin = match &f_in {
        Some(s) => parse_i32(s.as_str()),
        None => None,
    };
    let pout = match &f_out {
        Some(s) => parse_i32(s.as_str()),
        None => None,
    };
    match (pin, pout) {
        (Some(a), Some(b)) => Ok((a, b)),
        _ => Err(Error::NoSession),
    }
}

/// The precondition of a session convenience: without a target path there
/// must be an open session around this process, or there is nothing to talk
/// to.
pub fn session_required(has_path: bool, has_session: bool) -> (r: Result<(), Error>)
    ensures
        !has_path && !has_session ==> (r matches Err(e) && e == Error::NoSession),
        has_path || has_session ==> r is Ok,
{
    if !has_path && !has_session {
        Err(Error::NoSession)
    } else {
        Ok(())
    }
}

} // verus!
