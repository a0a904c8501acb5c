use vstd::prelude::*;

verus! {

/// `c` is a decimal digit.
pub open spec fn is_digit(c: char) -> bool {
    48 <= c as int && c as int <= 57
}

/// Numeric value of a decimal digit.
pub open spec fn digit_val(c: char) -> int {
    c as int - 48
}

/// Every character of `s` is a decimal digit.
pub open spec fn all_digits(s: Seq<char>) -> bool {
    forall|i: int| 0 <= i < s.len() ==> is_digit(#[trigger] s[i])
}

/// The value of a digit string read in base ten.
pub open spec fn digits_val(s: Seq<char>) -> int
    decreases s.len(),
{
    if s.len() == 0 {
        0
    } else {
        digits_val(s.drop_last()) * 10 + digit_val(s.last())
    }
}

/// Index where the digits of an integer literal begin: one past a leading
/// sign, else zero.
pub open spec fn start_of(s: Seq<char>) -> int {
    if s.len() > 0 && (s[0] == '-' || s[0] == '+') {
        1
    } else {
        0
    }
}

/// The digit part of an integer literal: everything after a leading sign.
pub open spec fn digits_of(s: Seq<char>) -> Seq<char> {
    s.subrange(start_of(s), s.len() as int)
}

/// The sign an integer literal denotes.
pub open spec fn sign_of(s: Seq<char>) -> int {
    if s.len() > 0 && s[0] == '-' {
        -1
    } else {
        1
    }
}

/// `s` is a decimal integer literal: an optional sign followed by at least
/// one digit, and nothing else.
pub open spec fn is_int_literal(s: Seq<char>) -> bool {
    digits_of(s).len() >= 1 && all_digits(digits_of(s))
}

/// The integer a literal denotes.
pub open spec fn int_literal_val(s: Seq<char>) -> int {
    sign_of(s) * digits_val(digits_of(s))
}

/// `v` fits a 32-bit signed integer.
pub open spec fn in_i32_range(v: int) -> bool {
    i32::MIN as int <= v <= i32::MAX as int
}

/// The character of one decimal digit.
pub open spec fn digit_char(d: int) -> char {
    "0123456789"@[d]
}

/// The decimal numeral of `n`: no sign, no leading zero (except for zero
/// itself).
pub open spec fn dec_str(n: nat) -> Seq<char>
    decreases n,
{
    if n < 10 {
        seq![digit_char(n as int)]
    } else {
        dec_str(n / 10).push(digit_char((n % 10) as int))
    }
}

/// Appends the character of one decimal digit.
fn append_digit(s: &mut String, d: u64)
    requires
        d < 10,
    ensures
        final(s)@ == old(s)@.push(digit_char(d as int)),
{
    let table = "0123456789";
    proof {
        reveal_strlit("0123456789");
    }
    let piece = table.substring_ascii(d as usize, d as usize + 1);
    s.append(piece);
    proof {
        assert(s@ =~= old(s)@.push(digit_char(d as int)));
    }
}

/// Renders `n` as its decimal numeral.
pub fn dec_of_u64(n: u64) -> (r: String)
    ensures
        r@ == dec_str(n as nat),
    decreases n,
{
    if n < 10 {
        let mut s = String::new();
        append_digit(&mut s, n);
        proof {
            assert(s@ =~= seq![digit_char(n as int)]);
        }
        s
    } else {
        let mut s = dec_of_u64(n / 10);
        append_digit(&mut s, n % 10);
        proof {
            assert(s@ =~= dec_str((n / 10) as nat).push(digit_char((n % 10) as int)));
        }
        s
    }
}

proof fn lemma_digits_val_nonneg(s: Seq<char>)
    requires
        all_digits(s),
    ensures
        digits_val(s) >= 0,
    decreases s.len(),
{
    if s.len() > 0 {
        assert forall|j: int| 0 <= j < s.drop_last().len() implies is_digit(
            #[trigger] s.drop_last()[j],
        ) by {
            assert(s.drop_last()[j] == s[j]);
        }
        lemma_digits_val_nonneg(s.drop_last());
        assert(is_digit(s[s.len() - 1]));
    }
}

/// Appending digits never shrinks the value a digit string denotes.
proof fn lemma_digits_val_prefix_le(s: Seq<char>, i: int)
    requires
        all_digits(s),
        0 <= i <= s.len(),
    ensures
        digits_val(s.subrange(0, i)) <= digits_val(s),
    decreases s.len(),
{
    if i == s.len() {
        assert(s.subrange(0, i) =~= s);
    } else {
        assert forall|j: int| 0 <= j < s.drop_last().len() implies is_digit(
            #[trigger] s.drop_last()[j],
        ) by {
            assert(s.drop_last()[j] == s[j]);
        }
        assert(s.subrange(0, i) =~= s.drop_last().subrange(0, i));
        lemma_digits_val_prefix_le(s.drop_last(), i);
        lemma_digits_val_nonneg(s.drop_last());
        assert(is_digit(s[s.len() - 1]));
        assert(digits_val(s) >= digits_val(s.drop_last()));
    }
}

/// Parses a decimal 32-bit integer, exactly the strings `is_int_literal`
/// accepts whose value is in range: an optional sign, then only digits
/// (leading zeros allowed), denoting a value a 32-bit signed integer can
/// hold. Anything else is `None`.
pub fn parse_i32(s: &str) -> (r: Option<i32>)
    ensures
        match r {
            Some(v) => is_int_literal(s@) && in_i32_range(int_literal_val(s@)) && v as int
                == int_literal_val(s@),
            None => !(is_int_literal(s@) && in_i32_range(int_literal_val(s@))),
        },
{
    let len = s.unicode_len();
    if len == 0 {
        return None;
    }
    let first = s.get_char(0);
    let neg = first == '-';
    let start: usize = if first == '-' || first == '+' {
        1
    } else {
        0
    };
    if start == len {
        proof {
            assert(digits_of(s@).len() == 0);
        }
        return None;
    }
    let mut i: usize = start;
    let mut acc: i64 = 0;
    while i < len
        invariant
            start <= i <= len,
            len == s@.len(),
            start as int == start_of(s@),
            start < len,
            neg == (s@[0] == '-'),
            all_digits(s@.subrange(start as int, i as int)),
            acc as int == digits_val(s@.subrange(start as int, i as int)),
            0 <= acc as int <= 0x8000_0000,
        decreases len - i,
    {
        let c = s.get_char(i);
        let code: u32 = c as u32;
        if code < 48 || code > 57 {
            proof {
                if is_int_literal(s@) {
                    assert(is_digit(digits_of(s@)[i - start as int]));
                    assert(digits_of(s@)[i - start as int] == s@[i as int]);
                }
            }
            return None;
        }
        proof {
            let pre = s@.subrange(start as int, i as int);
            let post = s@.subrange(start as int, i as int + 1);
            assert(post.drop_last() =~= pre);
            assert(post.last() == s@[i as int]);
            assert forall|j: int| 0 <= j < post.len() implies is_digit(#[trigger] post[j]) by {
                if j < pre.len() {
                    assert(post[j] == pre[j]);
                } else {
                    assert(post[j] == s@[i as int]);
                }
            }
        }
        acc = acc * 10 + ((code - 48) as i64);
        i = i + 1;
        if acc > 0x8000_0000 {
            proof {
                if is_int_literal(s@) {
                    let ds = digits_of(s@);
                    assert(s@.subrange(start as int, i as int) =~= ds.subrange(
                        0,
                        i - start as int,
                    ));
                    lemma_digits_val_prefix_le(ds, i - start as int);
                }
            }
            return None;
        }
    }
    proof {
        assert(s@.subrange(start as int, len as int) =~= digits_of(s@));
    }
    if neg {
        proof {
            assert(-acc as int >= i32::MIN as int);
        }
        Some((-acc) as i32)
    } else {
        if acc > 0x7FFF_FFFF {
            return None;
        }
        Some(acc as i32)
    }
}

} // verus!
