use vstd::prelude::*;

verus! {

/// The decimal digit character for `d` (0 through 9).
pub open spec fn digit_char(d: int) -> char {
    if d == 0 {
        '0'
    } else if d == 1 {
        '1'
    } else if d == 2 {
        '2'
    } else if d == 3 {
        '3'
    } else if d == 4 {
        '4'
    } else if d == 5 {
        '5'
    } else if d == 6 {
        '6'
    } else if d == 7 {
        '7'
    } else if d == 8 {
        '8'
    } else {
        '9'
    }
}

/// The decimal representation of `n`, most significant digit first, no sign
/// and no leading zeros (a single zero for 0).
pub open spec fn dec_digits(n: nat) -> Seq<char>
    decreases n,
{
    if n < 10 {
        seq![digit_char(n as int)]
    } else {
        dec_digits(n / 10) + seq![digit_char((n % 10) as int)]
    }
}

/// The decimal representation of `n`, with a leading minus sign when `n` is
/// negative.
pub open spec fn int_dec_digits(n: int) -> Seq<char> {
    if n < 0 {
        seq!['-'] + dec_digits((-n) as nat)
    } else {
        dec_digits(n as nat)
    }
}

/// The digit characters for the reversed digit list `rev` (least significant
/// digit first), rendered most significant digit first.
spec fn rev_digit_chars(rev: Seq<u8>) -> Seq<char> {
    Seq::new(rev.len(), |i: int| digit_char(rev[rev.len() - 1 - i] as int))
}

fn append_digit(s: &mut String, d: u8)
    requires
        d < 10,
    ensures
        final(s)@ == old(s)@ + seq![digit_char(d as int)],
{
    let digits = "0123456789";
    proof {
        reveal_strlit("0123456789");
    }
    let c = digits.substring_char(d as usize, d as usize + 1);
    s.append(c);
    proof {
        assert(digits@.subrange(d as int, d as int + 1) =~= seq![digit_char(d as int)]);
    }
}

/// Render `n` in decimal.
pub fn u64_to_string(n: u64) -> (s: String)
    ensures
        s@ == dec_digits(n as nat),
{
    let mut rev: Vec<u8> = Vec::new();
    let mut m: u64 = n;
    rev.push((m % 10) as u8);
    m = m / 10;
    proof {
        assert(rev_digit_chars(rev@) =~= seq![digit_char((n % 10) as int)]);
    }
    while m > 0
        invariant
            rev@.len() >= 1,
            forall|k: int| 0 <= k < rev@.len() ==> #[trigger] rev@[k] < 10,
            m > 0 ==> dec_digits(n as nat) == dec_digits(m as nat) + rev_digit_chars(rev@),
            m == 0 ==> dec_digits(n as nat) == rev_digit_chars(rev@),
        decreases m,
    {
        let d = (m % 10) as u8;
        let ghost pre = rev@;
        rev.push(d);
        m = m / 10;
        proof {
            assert(rev_digit_chars(pre.push(d)) =~= seq![digit_char(d as int)] + rev_digit_chars(
                pre,
            ));
            if m > 0 {
                assert(dec_digits(n as nat) =~= dec_digits(m as nat) + rev_digit_chars(rev@));
            } else {
                assert(dec_digits(n as nat) =~= rev_digit_chars(rev@));
            }
        }
    }
    let mut s = String::new();
    let count = rev.len();
    let mut i: usize = count;
    while i > 0
        invariant
            i <= count,
            count == rev@.len(),
            forall|k: int| 0 <= k < rev@.len() ==> #[trigger] rev@[k] < 10,
            dec_digits(n as nat) == rev_digit_chars(rev@),
            s@ == rev_digit_chars(rev@).subrange(0, (count - i) as int),
        decreases i,
    {
        append_digit(&mut s, rev[i - 1]);
        proof {
            assert(rev_digit_chars(rev@).subrange(0, (count - i) as int).push(
                digit_char(rev@[i - 1 as int] as int),
            ) =~= rev_digit_chars(rev@).subrange(0, (count - i + 1) as int));
        }
        i = i - 1;
    }
    proof {
        assert(rev_digit_chars(rev@).subrange(0, count as int) =~= rev_digit_chars(rev@));
    }
    s
}

/// Render `n` in decimal, with a leading minus sign when negative.
pub fn i64_to_string(n: i64) -> (s: String)
    ensures
        s@ == int_dec_digits(n as int),
{
    if n >= 0 {
        u64_to_string(n as u64)
    } else {
        let mag: u64 = ((-(n + 1)) as u64) + 1;
        proof {
            assert(mag as int == -(n as int));
        }
        let mut s = String::new();
        s.append("-");
        let digits = u64_to_string(mag);
        s.append(digits.as_str());
        proof {
            reveal_strlit("-");
            assert("-"@ =~= seq!['-']);
            assert(s@ =~= int_dec_digits(n as int));
        }
        s
    }
}

} // verus!
