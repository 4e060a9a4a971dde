//! Target resolution: deciding whether the user-supplied string names an
//! existing process identifier or a command to launch.
//!
//! A string that parses as an unsigned 32-bit decimal integer — optional
//! leading plus sign, then digits — denotes a process identifier, used
//! directly with no existence check; any other string is a command for the
//! surrounding binary to spawn.

use vstd::prelude::*;
use crate::numfmt::is_digit_char;

verus! {

/// The numeric value of a digit character.
pub open spec fn digit_val(c: char) -> nat {
    (c as u32 - 48) as nat
}

/// Whether every character of a sequence is a decimal digit.
pub open spec fn all_digits(s: Seq<char>) -> bool {
    forall|i: int| 0 <= i < s.len() ==> is_digit_char(#[trigger] s[i])
}

/// The value of a digit sequence read in decimal, most significant first.
pub open spec fn digits_val(s: Seq<char>) -> nat
    decreases s.len(),
{
    if s.len() == 0 {
        0
    } else {
        digits_val(s.drop_last()) * 10 + digit_val(s.last())
    }
}

/// The digit part of a candidate identifier: everything after one optional
/// leading plus sign.
pub open spec fn spec_pid_digits(s: Seq<char>) -> Seq<char> {
    if s.len() > 0 && s[0] == '+' {
        s.drop_first()
    } else {
        s
    }
}

/// Whether a string denotes a process identifier: a non-empty run of
/// digits after the optional sign, with a value that fits in 32 bits.
pub open spec fn is_pid_string(s: Seq<char>) -> bool {
    let d = spec_pid_digits(s);
    d.len() > 0 && all_digits(d) && digits_val(d) <= u32::MAX
}

/// Taking more digits never decreases the value they read as.
proof fn lemma_digits_val_take_le(d: Seq<char>, k: int)
    requires
        0 <= k <= d.len(),
    ensures
        digits_val(d.take(k)) <= digits_val(d),
    decreases d.len() - k,
{
    if k == d.len() {
        assert(d.take(k) =~= d);
    } else {
        assert(d.take(k + 1).drop_last() =~= d.take(k));
        lemma_digits_val_take_le(d, k + 1);
    }
}

/// Decides whether the target string is a process identifier, and its
/// value if so.  A `None` means the string is a command to launch instead.
pub fn parse_pid(s: &str) -> (r: Option<u32>)
    ensures
        r is Some <==> is_pid_string(s@),
        r matches Some(pid) ==> pid == digits_val(spec_pid_digits(s@)),
{
    let n = s.unicode_len();
    let ghost d = spec_pid_digits(s@);
    let start: usize = if n >= 1 && s.get_char(0) == '+' {
        1
    } else {
        0
    };
    proof {
        assert(d.len() == n - start);
        assert(forall|j: int| 0 <= j < d.len() ==> #[trigger] d[j] == s@[j + start]);
    }
    if start == n {
        return None;
    }
    let mut acc: u64 = 0;
    let mut i: usize = start;
    while i < n
        invariant
            start <= i <= n,
            n == s@.len(),
            d == spec_pid_digits(s@),
            d.len() == n - start,
            forall|j: int| 0 <= j < d.len() ==> #[trigger] d[j] == s@[j + start],
            all_digits(d.take(i - start)),
            acc == digits_val(d.take(i - start)),
            acc <= u32::MAX,
        decreases n - i,
    {
        let c = s.get_char(i);
        let cv = c as u32;
        let ghost k = i - start;
        proof {
            assert(d[k] == c);
        }
        if cv < 48 || cv > 57 {
            return None;
        }
        let ghost t = d.take(k + 1);
        proof {
            assert(t.drop_last() =~= d.take(k));
            assert(t.last() == c);
            assert forall|j: int| 0 <= j < t.len() implies is_digit_char(#[trigger] t[j]) by {
                if j < k {
                    assert(t[j] == d.take(k)[j]);
                }
            }
        }
        let new_acc = acc * 10 + (cv - 48) as u64;
        if new_acc > 0xFFFF_FFFF {
            proof {
                lemma_digits_val_take_le(d, k + 1);
            }
            return None;
        }
        acc = new_acc;
        i += 1;
    }
    proof {
        assert(d.take(n - start) =~= d);
    }
    Some(acc as u32)
}

} // verus!
