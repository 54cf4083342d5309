use vstd::prelude::*;

verus! {

/// Whether `c` is an ASCII decimal digit.
pub open spec fn is_ascii_digit_char(c: char) -> bool {
    48 <= c as int && c as int <= 57
}

/// Numeric value of an ASCII decimal digit.
pub open spec fn digit_value(c: char) -> int {
    c as int - 48
}

/// Whether every character of `s` is an ASCII decimal digit.
pub open spec fn all_ascii_digits(s: Seq<char>) -> bool {
    forall|i: int| 0 <= i < s.len() ==> is_ascii_digit_char(#[trigger] s[i])
}

/// Value of a digit string read as a base-10 numeral.
pub open spec fn digits_value(s: Seq<char>) -> int
    decreases s.len(),
{
    if s.len() == 0 {
        0
    } else {
        digits_value(s.drop_last()) * 10 + digit_value(s.last())
    }
}

/// The integer denoted by `s` in decimal syntax: an optional leading `+` or
/// `-` sign followed by one or more ASCII digits, and nothing else.
pub open spec fn parsed_int(s: Seq<char>) -> Option<int> {
    let body = if s.len() > 0 && (s[0] == '+' || s[0] == '-') {
        s.subrange(1, s.len() as int)
    } else {
        s
    };
    if body.len() > 0 && all_ascii_digits(body) {
        if s.len() > 0 && s[0] == '-' {
            Some(-digits_value(body))
        } else {
            Some(digits_value(body))
        }
    } else {
        None
    }
}

/// Decimal parse restricted to the 32-bit signed range; a well-formed numeral
/// whose value falls outside that range fails like a malformed one.
pub open spec fn parsed_i32(s: Seq<char>) -> Option<int> {
    match parsed_int(s) {
        Some(v) => if -2147483648 <= v && v <= 2147483647 {
            Some(v)
        } else {
            None
        },
        None => None,
    }
}

/// Parse `s` as a decimal numeral with optional sign, exactly when its value
/// fits a signed 32-bit integer.
pub fn parse_i32(s: &str) -> (r: Option<i32>)
    ensures
        r is Some <==> parsed_i32(s@) is Some,
        r is Some ==> parsed_i32(s@) == Some(r->Some_0 as int),
{
    let n = s.unicode_len();
    let mut start: usize = 0;
    let mut negative = false;
    if n > 0 {
        let c0 = s.get_char(0);
        if c0 == '+' {
            start = 1;
        } else if c0 == '-' {
            start = 1;
            negative = true;
        }
    }
    if start >= n {
        // a bare sign or an empty string has no digits
        return None;
    }
    let ghost body = if start == 1 {
        s@.subrange(1, n as int)
    } else {
        s@
    };
    proof {
        assert(s@.subrange(0, n as int) =~= s@);
        assert(body =~= s@.subrange(start as int, n as int));
    }
    let mut acc: u64 = 0;
    let mut over = false;
    let mut i: usize = start;
    while i < n
        invariant
            start <= 1,
            start <= i <= n,
            n == s@.len(),
            start == 1 ==> (s@[0] == '+' || s@[0] == '-'),
            negative == (n > 0 && s@[0] == '-'),
            start == 0 ==> !(s@[0] == '+' || s@[0] == '-'),
            body =~= s@.subrange(start as int, n as int),
            forall|j: int| start <= j < i ==> is_ascii_digit_char(#[trigger] s@[j]),
            !over ==> acc == digits_value(s@.subrange(start as int, i as int)) && acc
                <= 2147483648,
            over ==> digits_value(s@.subrange(start as int, i as int)) > 2147483648,
        decreases n - i,
    {
        let c = s.get_char(i);
        let u: u32 = c as u32;
        if u < 48 || u > 57 {
            proof {
                assert(!is_ascii_digit_char(s@[i as int]));
                assert(body[i - start] == s@[i as int]);
                assert(!all_ascii_digits(body));
            }
            return None;
        }
        let d: u64 = (u - 48) as u64;
        proof {
            let pre = s@.subrange(start as int, i as int);
            let post = s@.subrange(start as int, (i + 1) as int);
            assert(post.drop_last() =~= pre);
            assert(post.last() == s@[i as int]);
            assert(digits_value(post) == digits_value(pre) * 10 + digit_value(s@[i as int]));
        }
        if !over {
            let next: u64 = acc * 10 + d;
            if next > 2147483648 {
                over = true;
            } else {
                acc = next;
            }
        }
        i = i + 1;
    }
    proof {
        assert(s@.subrange(start as int, i as int) =~= body);
        assert(body.len() > 0);
        assert(all_ascii_digits(body));
    }
    if over {
        // magnitude beyond 2^31: out of range for either sign
        return None;
    }
    if negative {
        if acc == 2147483648 {
            Some(i32::MIN)
        } else {
            Some(-(acc as i32))
        }
    } else {
        if acc > 2147483647 {
            // 2^31 itself overflows the positive side
            None
        } else {
            Some(acc as i32)
        }
    }
}

} // verus!
