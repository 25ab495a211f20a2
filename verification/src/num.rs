use vstd::prelude::*;

verus! {

/// `c` is a decimal digit.
pub open spec fn is_digit(c: char) -> bool {
    48 <= c as u32 <= 57
}

/// The value of the decimal digit `c`.
pub open spec fn digit_val(c: char) -> int {
    c as u32 - 48
}

/// Every character of `s` is a decimal digit.
pub open spec fn all_digits(s: Seq<char>) -> bool {
    forall|k: int| 0 <= k < s.len() ==> is_digit(s[k])
}

/// The number the digit string `s` denotes, most significant digit first.
pub open spec fn digits_val(s: Seq<char>) -> int
    decreases s.len(),
{
    if s.len() == 0 {
        0
    } else {
        10 * digits_val(s.drop_last()) + digit_val(s[s.len() - 1])
    }
}

/// The signed 64-bit integer the text `s` denotes: an optional minus sign
/// followed by at least one digit, the value in range.  Anything else
/// denotes nothing.
pub open spec fn spec_parse_i64(s: Seq<char>) -> Option<i64> {
    if s.len() > 0 && s[0] == '-' {
        let d = s.drop_first();
        if d.len() > 0 && all_digits(d) && digits_val(d) <= 0x8000_0000_0000_0000 {
            Some((-digits_val(d)) as i64)
        } else {
            None
        }
    } else if s.len() > 0 && all_digits(s) && digits_val(s) <= 0x7fff_ffff_ffff_ffff {
        Some(digits_val(s) as i64)
    } else {
        None
    }
}

proof fn lemma_digits_val_nonneg(s: Seq<char>)
    requires
        all_digits(s),
    ensures
        digits_val(s) >= 0,
    decreases s.len(),
{
    if s.len() > 0 {
        assert(forall|k: int| 0 <= k < s.drop_last().len() ==> is_digit(#[trigger] s.drop_last()[k]));
        lemma_digits_val_nonneg(s.drop_last());
    }
}

proof fn lemma_digits_val_prefix(s: Seq<char>, k: int)
    requires
        all_digits(s),
        0 <= k <= s.len(),
    ensures
        digits_val(s.subrange(0, k)) <= digits_val(s),
    decreases s.len(),
{
    if k == s.len() {
        assert(s.subrange(0, k) =~= s);
    } else {
        let t = s.drop_last();
        assert(forall|j: int| 0 <= j < t.len() ==> is_digit(#[trigger] t[j]));
        lemma_digits_val_prefix(t, k);
        assert(s.subrange(0, k) =~= t.subrange(0, k));
        lemma_digits_val_nonneg(t);
        assert(is_digit(s[s.len() - 1]));
    }
}

/// Reads the text as a signed 64-bit integer, exactly as `spec_parse_i64`
/// describes it.
pub fn parse_i64(s: &str) -> (r: Option<i64>)
    ensures
        r == spec_parse_i64(s@),
{
    let n = s.unicode_len();
    let neg = n > 0 && s.get_char(0) == '-';
    let start: usize = if neg { 1 } else { 0 };
    if n == start {
        return None;
    }
    let mut acc: u128 = 0;
    let mut i: usize = start;
    while i < n
        invariant
            start <= i <= n,
            n == s@.len(),
            n > start,
            start == 1 <==> (s@.len() > 0 && s@[0] == '-'),
            neg <==> start == 1,
            start == 0 || start == 1,
            forall|k: int| start <= k < i ==> is_digit(s@[k]),
            acc == digits_val(s@.subrange(start as int, i as int)),
            acc <= 0x8000_0000_0000_0000u128,
        decreases n - i,
    {
        let c = s.get_char(i);
        let u = c as u32;
        if u < 48 || u > 57 {
            proof {
                if neg {
                    assert(!is_digit(s@.drop_first()[i - 1]));
                } else {
                    assert(!is_digit(s@[i as int]));
                }
            }
            return None;
        }
        let d = (u - 48) as u128;
        proof {
            let pre = s@.subrange(start as int, i as int);
            let ext = s@.subrange(start as int, i + 1);
            assert(ext.drop_last() =~= pre);
            assert(ext[ext.len() - 1] == s@[i as int]);
        }
        acc = acc * 10 + d;
        if acc > 0x8000_0000_0000_0000u128 {
            proof {
                let full = s@.subrange(start as int, n as int);
                if all_digits(full) {
                    lemma_digits_val_prefix(full, i + 1 - start);
                    assert(full.subrange(0, i + 1 - start) =~= s@.subrange(start as int, i + 1));
                }
                if neg {
                    assert(s@.drop_first() =~= s@.subrange(1, n as int));
                } else {
                    assert(s@.subrange(0, n as int) =~= s@);
                }
            }
            return None;
        }
        i += 1;
    }
    proof {
        if neg {
            assert(s@.drop_first() =~= s@.subrange(1, n as int));
        } else {
            assert(s@.subrange(0, n as int) =~= s@);
        }
    }
    if neg {
        if acc == 0x8000_0000_0000_0000u128 {
            Some(i64::MIN)
        } else {
            Some(-(acc as i64))
        }
    } else {
        if acc > 0x7fff_ffff_ffff_ffffu128 {
            None
        } else {
            Some(acc as i64)
        }
    }
}

} // verus!
