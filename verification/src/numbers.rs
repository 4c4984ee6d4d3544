use vstd::prelude::*;

verus! {

/// An ASCII decimal digit.
pub open spec fn is_digit(c: char) -> bool {
    48 <= (c as u32) <= 57
}

/// The value of an ASCII decimal digit.
pub open spec fn digit_value(c: char) -> int {
    (c as u32) - 48
}

/// Every character of `s` is an ASCII decimal digit.
pub open spec fn all_digits(s: Seq<char>) -> bool {
    forall|i: int| 0 <= i < s.len() ==> is_digit(#[trigger] s[i])
}

/// The number that a string of decimal digits denotes.
pub open spec fn digits_value(s: Seq<char>) -> int
    decreases s.len(),
{
    if s.len() == 0 {
        0
    } else {
        10 * digits_value(s.drop_last()) + digit_value(s.last())
    }
}

/// What `str::parse::<i32>` accepts: an optional `+` or `-`, then one or more
/// ASCII digits, denoting a value in the range of `i32`.
pub open spec fn parse_i32(s: Seq<char>) -> Option<i32> {
    let neg = s.len() > 0 && s[0] == '-';
    let body = if s.len() > 0 && (s[0] == '-' || s[0] == '+') {
        s.drop_first()
    } else {
        s
    };
    let v = if neg {
        -digits_value(body)
    } else {
        digits_value(body)
    };
    if body.len() == 0 || !all_digits(body) || v < i32::MIN || v > i32::MAX {
        None
    } else {
        Some(v as i32)
    }
}

/// The ASCII digit for a value below ten.
pub open spec fn digit_char(d: int) -> char {
    (d + 48) as char
}

/// The decimal digits of a natural number, without leading zeros.
pub open spec fn natural_digits(n: nat) -> Seq<char>
    decreases n,
{
    if n < 10 {
        seq![digit_char(n as int)]
    } else {
        natural_digits(n / 10).push(digit_char((n % 10) as int))
    }
}

/// The decimal form of an integer, as `Display` writes it.
pub open spec fn decimal(n: int) -> Seq<char> {
    if n < 0 {
        seq!['-'] + natural_digits((-n) as nat)
    } else {
        natural_digits(n as nat)
    }
}

proof fn lemma_digits_value_push(s: Seq<char>, c: char)
    ensures
        digits_value(s.push(c)) == 10 * digits_value(s) + digit_value(c),
{
    assert(s.push(c).drop_last() =~= s);
}

/// Parses `v[start..]` as `str::parse::<i32>` does.
#[verifier::loop_isolation(false)]
pub fn parse_i32_chars(v: &Vec<char>, start: usize) -> (r: Option<i32>)
    requires
        start <= v.len(),
    ensures
        r == parse_i32(v@.subrange(start as int, v.len() as int)),
{
    let ghost s = v@.subrange(start as int, v.len() as int);
    let n = v.len();
    let mut i = start;
    let mut neg = false;
    if i < n && v[i] == '-' {
        neg = true;
        i = i + 1;
    } else if i < n && v[i] == '+' {
        i = i + 1;
    }
    let ghost body = if s.len() > 0 && (s[0] == '-' || s[0] == '+') {
        s.drop_first()
    } else {
        s
    };
    assert(body =~= v@.subrange(i as int, n as int));
    assert(neg == (s.len() > 0 && s[0] == '-'));
    if i == n {
        return None;
    }
    let body_start = i;
    let mut acc: u64 = 0;
    let mut big = false;
    assert(v@.subrange(body_start as int, body_start as int) =~= Seq::<char>::empty());
    while i < n
        invariant
            body_start <= i <= n == v.len(),
            all_digits(v@.subrange(body_start as int, i as int)),
            !big ==> acc == digits_value(v@.subrange(body_start as int, i as int)),
            !big ==> acc <= 2147483648,
            big ==> digits_value(v@.subrange(body_start as int, i as int)) > 2147483648,
        decreases n - i,
    {
        let c = v[i];
        let ghost pre = v@.subrange(body_start as int, i as int);
        assert(v@.subrange(body_start as int, i + 1) =~= pre.push(c));
        let u = c as u32;
        if !(48 <= u && u <= 57) {
            proof {
                let b = v@.subrange(body_start as int, n as int);
                assert(b[i - body_start] == c);
                assert(!is_digit(b[i - body_start]));
                assert(!all_digits(b));
            }
            return None;
        }
        proof {
            lemma_digits_value_push(pre, c);
        }
        if !big {
            let d = (u - 48) as u64;
            acc = acc * 10 + d;
            if acc > 2147483648 {
                big = true;
            }
        }
        i = i + 1;
    }
    assert(v@.subrange(body_start as int, n as int) == body);
    if big {
        return None;
    }
    if neg {
        Some((0 - (acc as i64)) as i32)
    } else if acc <= 2147483647 {
        Some(acc as i32)
    } else {
        None
    }
}

/// Parses a whole string as `str::parse::<i32>` does.
pub fn parse_i32_str(s: &str) -> (r: Option<i32>)
    ensures
        r == parse_i32(s@),
{
    let v = crate::text::chars_of(s);
    assert(v@.subrange(0, v.len() as int) =~= v@);
    parse_i32_chars(&v, 0)
}

/// Appends the decimal digits of `n` to `out`.
pub fn push_natural_digits(n: u32, out: &mut Vec<char>)
    ensures
        final(out)@ == old(out)@ + natural_digits(n as nat),
    decreases n,
{
    if n >= 10 {
        push_natural_digits(n / 10, out);
    }
    let d = (n % 10) as u8;
    let c = (d + 48) as char;
    assert(c == digit_char((n % 10) as int));
    out.push(c);
    proof {
        if n >= 10 {
            assert(old(out)@ + natural_digits(n as nat) =~= old(out)@ + natural_digits((n / 10) as nat) + seq![c]);
        } else {
            assert(natural_digits(n as nat) =~= seq![c]);
        }
    }
}

/// Appends the decimal form of `n` to `out`, as `Display` for `i32` writes it.
pub fn push_decimal(n: i32, out: &mut Vec<char>)
    ensures
        final(out)@ == old(out)@ + decimal(n as int),
{
    if n < 0 {
        out.push('-');
        let m: u32 = if n == i32::MIN {
            2147483648u32
        } else {
            (0 - n) as u32
        };
        push_natural_digits(m, out);
        assert(old(out)@ + decimal(n as int) =~= old(out)@ + seq!['-'] + natural_digits(m as nat));
    } else {
        push_natural_digits(n as u32, out);
    }
}

/// The decimal digits of a natural number are digits, at least one, and read
/// back as the number.
pub proof fn lemma_natural_digits(n: nat)
    ensures
        natural_digits(n).len() > 0,
        all_digits(natural_digits(n)),
        digits_value(natural_digits(n)) == n,
    decreases n,
{
    if n >= 10 {
        lemma_natural_digits(n / 10);
        lemma_digits_value_push(natural_digits(n / 10), digit_char((n % 10) as int));
        let s = natural_digits(n);
        assert forall|i: int| 0 <= i < s.len() implies is_digit(#[trigger] s[i]) by {
            if i < s.len() - 1 {
                assert(s[i] == natural_digits(n / 10)[i]);
            }
        }
    } else {
        assert(digits_value(natural_digits(n)) == 10 * digits_value(Seq::<char>::empty()) + digit_value(digit_char(n as int))) by {
            assert(natural_digits(n).drop_last() =~= Seq::<char>::empty());
        }
    }
}

/// Reading back the decimal form of an `i32` gives the same value.
pub proof fn lemma_parse_decimal(n: i32)
    ensures
        parse_i32(decimal(n as int)) == Some(n),
{
    if n < 0 {
        let m = (-(n as int)) as nat;
        lemma_natural_digits(m);
        let s = decimal(n as int);
        assert(s.drop_first() =~= natural_digits(m));
    } else {
        lemma_natural_digits(n as nat);
        let s = natural_digits(n as nat);
        assert(is_digit(s[0]));
    }
}

} // verus!
