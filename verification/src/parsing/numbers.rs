//! Decimal text for 64-bit integers: a verified reading (used when a number
//! leaf of the syntax tree is folded) and a verified rendering (used by both
//! serializers).

use vstd::prelude::*;

verus! {

/// The characters of a string, collected for scanning.
pub fn string_chars(st: &str) -> (r: Vec<char>)
    ensures
        r@ == st@,
{
    let n = st.unicode_len();
    let mut out: Vec<char> = Vec::new();
    let mut i: usize = 0;
    while i < n
        invariant
            i <= n,
            n == st@.len(),
            out@ =~= st@.take(i as int),
        decreases n - i,
    {
        out.push(st.get_char(i));
        i = i + 1;
    }
    proof {
        assert(st@.take(n as int) =~= st@);
    }
    out
}

/// Is `c` a decimal digit?
pub open spec fn is_digit_char(c: char) -> bool {
    48 <= c as u32 <= 57
}

/// The numeric value of a digit character.
pub open spec fn digit_val(c: char) -> nat {
    (c as u32 - 48) as nat
}

/// Does `s` consist of decimal digits only?
pub open spec fn all_digits(s: Seq<char>) -> bool {
    forall|i: int| 0 <= i < s.len() ==> is_digit_char(#[trigger] s[i])
}

/// The value of a digit string, most significant digit first.
pub open spec fn digits_val(s: Seq<char>) -> nat
    decreases s.len(),
{
    if s.len() == 0 {
        0
    } else {
        digits_val(s.drop_last()) * 10 + digit_val(s.last())
    }
}

/// What reading `s` as a 64-bit integer yields: an optional sign followed by
/// at least one digit, with the value in range; anything else is rejected.
pub open spec fn parse_i64_spec(s: Seq<char>) -> Option<i64> {
    if s.len() >= 1 && s[0] == '-' {
        let d = s.drop_first();
        if d.len() >= 1 && all_digits(d) && digits_val(d) <= 0x8000000000000000 {
            Some((0 - digits_val(d)) as i64)
        } else {
            None
        }
    } else {
        if s.len() >= 1 && all_digits(s) && digits_val(s) <= 0x7fffffffffffffff {
            Some(digits_val(s) as i64)
        } else {
            None
        }
    }
}

proof fn lemma_digits_val_take_step(s: Seq<char>, i: int)
    requires
        0 <= i < s.len(),
    ensures
        digits_val(s.take(i + 1)) == digits_val(s.take(i)) * 10 + digit_val(s[i]),
{
    assert(s.take(i + 1).drop_last() =~= s.take(i));
    assert(s.take(i + 1).last() == s[i]);
}

/// Once a digit prefix exceeds a bound, every extension of it does too.
proof fn lemma_digits_val_grows(s: Seq<char>, i: int, bound: nat)
    requires
        0 <= i <= s.len(),
        digits_val(s.take(i)) > bound,
    ensures
        digits_val(s) > bound,
    decreases s.len() - i,
{
    if i == s.len() {
        assert(s.take(i) =~= s);
    } else {
        lemma_digits_val_take_step(s, i);
        assert(digits_val(s.take(i + 1)) >= digits_val(s.take(i)) * 10) by (nonlinear_arith)
            requires digits_val(s.take(i + 1)) == digits_val(s.take(i)) * 10 + digit_val(s[i]);
        assert(digits_val(s.take(i)) * 10 >= digits_val(s.take(i))) by (nonlinear_arith);
        lemma_digits_val_grows(s, i + 1, bound);
    }
}

/// Reads the digit run `s[from..]` as a magnitude no greater than `limit`.
/// Returns the value, or `None` if a non-digit occurs or `limit` is passed.
fn read_digits(s: &Vec<char>, from: usize, limit: u64) -> (r: Option<u64>)
    requires
        from <= s@.len(),
    ensures
        match r {
            Some(v) => {
                &&& all_digits(s@.skip(from as int))
                &&& s@.len() > from
                &&& digits_val(s@.skip(from as int)) == v
                &&& v <= limit
            },
            None => {
                ||| s@.len() == from
                ||| !all_digits(s@.skip(from as int))
                ||| digits_val(s@.skip(from as int)) > limit
            },
        },
{
    let ghost d = s@.skip(from as int);
    if from == s.len() {
        return None;
    }
    let mut acc: u64 = 0;
    let mut i: usize = from;
    while i < s.len()
        invariant
            from <= i <= s@.len(),
            d == s@.skip(from as int),
            all_digits(d.take(i - from)),
            acc == digits_val(d.take(i - from)),
            acc <= limit,
            limit <= u64::MAX,
        decreases s@.len() - i,
    {
        let c = s[i];
        let cv: u32 = c as u32;
        proof {
            assert(d[i - from] == s@[i as int]);
        }
        if cv < 48 || cv > 57 {
            proof {
                assert(!is_digit_char(d[i - from]));
            }
            return None;
        }
        let dv: u64 = (cv - 48) as u64;
        proof {
            lemma_digits_val_take_step(d, i - from);
        }
        if acc > limit / 10 {
            proof {
                assert(acc * 10 + dv > limit) by (nonlinear_arith)
                    requires acc > limit / 10, dv >= 0, limit <= u64::MAX, acc >= 0,
                             limit / 10 == limit as int / 10;
                lemma_digits_val_grows(d, i - from + 1, limit as nat);
            }
            return None;
        }
        let next: u64 = acc * 10;
        if dv > limit - next {
            proof {
                lemma_digits_val_grows(d, i - from + 1, limit as nat);
            }
            return None;
        }
        acc = next + dv;
        i = i + 1;
    }
    proof {
        assert(d.take(i - from) =~= d);
    }
    Some(acc)
}

/// Reads `s` as a 64-bit integer, exactly as `parse_i64_spec` describes.
pub fn parse_i64_chars(s: &Vec<char>) -> (r: Option<i64>)
    ensures
        r == parse_i64_spec(s@),
{
    if s.len() >= 1 && s[0] == '-' {
        proof {
            assert(s@.skip(1) =~= s@.drop_first());
        }
        match read_digits(s, 1, 0x8000000000000000u64) {
            Some(v) => {
                if v == 0x8000000000000000u64 {
                    Some(i64::MIN)
                } else {
                    Some(-(v as i64))
                }
            },
            None => None,
        }
    } else {
        proof {
            assert(s@.skip(0) =~= s@);
        }
        match read_digits(s, 0, 0x7fffffffffffffffu64) {
            Some(v) => Some(v as i64),
            None => None,
        }
    }
}

/// The decimal text of a natural number.
pub open spec fn nat_text(n: nat) -> Seq<char>
    decreases n,
{
    if n < 10 {
        seq![digit_char(n)]
    } else {
        nat_text(n / 10).push(digit_char(n % 10))
    }
}

/// The digit character for one decimal digit.
pub open spec fn digit_char(d: nat) -> char {
    if d == 0 { '0' }
    else if d == 1 { '1' }
    else if d == 2 { '2' }
    else if d == 3 { '3' }
    else if d == 4 { '4' }
    else if d == 5 { '5' }
    else if d == 6 { '6' }
    else if d == 7 { '7' }
    else if d == 8 { '8' }
    else if d == 9 { '9' }
    else { ' ' }
}

/// The decimal text of a 64-bit integer, minus sign included.
pub open spec fn i64_text(n: i64) -> Seq<char> {
    if n >= 0 {
        nat_text(n as nat)
    } else {
        seq!['-'] + nat_text((0 - n as int) as nat)
    }
}

/// The text of one digit.
fn digit_str(d: u64) -> (r: &'static str)
    requires
        d < 10,
    ensures
        r@ =~= seq![digit_char(d as nat)],
{
    proof {
        reveal_strlit("0");
        reveal_strlit("1");
        reveal_strlit("2");
        reveal_strlit("3");
        reveal_strlit("4");
        reveal_strlit("5");
        reveal_strlit("6");
        reveal_strlit("7");
        reveal_strlit("8");
        reveal_strlit("9");
    }
    if d == 0 { "0" }
    else if d == 1 { "1" }
    else if d == 2 { "2" }
    else if d == 3 { "3" }
    else if d == 4 { "4" }
    else if d == 5 { "5" }
    else if d == 6 { "6" }
    else if d == 7 { "7" }
    else if d == 8 { "8" }
    else { "9" }
}

/// Appends the decimal text of `n` to `out`.
fn push_nat_text(out: &mut String, n: u64)
    ensures
        final(out)@ == old(out)@ + nat_text(n as nat),
    decreases n,
{
    if n < 10 {
        out.append(digit_str(n));
    } else {
        push_nat_text(out, n / 10);
        out.append(digit_str(n % 10));
        proof {
            assert(old(out)@ + nat_text((n / 10) as nat) + nat_text((n % 10) as nat)
                =~= old(out)@ + nat_text(n as nat));
        }
    }
}

/// Appends the decimal text of `n` to `out`.
pub fn push_u64_text(out: &mut String, n: u64)
    ensures
        final(out)@ == old(out)@ + nat_text(n as nat),
{
    push_nat_text(out, n);
}

/// Appends the decimal text of `n`, minus sign included, to `out`.
pub fn push_i64_text(out: &mut String, n: i64)
    ensures
        final(out)@ == old(out)@ + i64_text(n),
{
    if n >= 0 {
        push_nat_text(out, n as u64);
    } else {
        out.append("-");
        let mag: u64 = if n == i64::MIN {
            0x8000000000000000u64
        } else {
            (-n) as u64
        };
        push_nat_text(out, mag);
        proof {
            reveal_strlit("-");
            assert("-"@ =~= seq!['-']);
            assert(old(out)@ + "-"@ + nat_text(mag as nat) =~= old(out)@ + i64_text(n));
        }
    }
}

/// The decimal text of a natural number is all digits and reads back to the
/// same number.
pub proof fn lemma_nat_text_value(n: nat)
    ensures
        all_digits(nat_text(n)),
        digits_val(nat_text(n)) == n,
        nat_text(n).len() >= 1,
        is_digit_char(nat_text(n)[0]),
    decreases n,
{
    if n < 10 {
        assert(nat_text(n) =~= seq![digit_char(n)]);
        assert(seq![digit_char(n)].drop_last() =~= Seq::<char>::empty());
        assert(seq![digit_char(n)].last() == digit_char(n));
        assert(digits_val(Seq::<char>::empty()) == 0);
        assert(is_digit_char(digit_char(n)));
        assert(digit_val(digit_char(n)) == n);
        assert(digits_val(seq![digit_char(n)]) == digit_val(digit_char(n)));
    } else {
        lemma_nat_text_value(n / 10);
        let prefix = nat_text(n / 10);
        assert(nat_text(n) == prefix.push(digit_char(n % 10)));
        assert(prefix.push(digit_char(n % 10)).drop_last() =~= prefix);
        assert(prefix.push(digit_char(n % 10)).last() == digit_char(n % 10));
        assert(digit_val(digit_char(n % 10)) == n % 10);
        assert(digits_val(nat_text(n)) == (n / 10) * 10 + n % 10);
        assert((n / 10) * 10 + n % 10 == n) by (nonlinear_arith);
        assert forall|i: int| 0 <= i < nat_text(n).len() implies is_digit_char(
            #[trigger] nat_text(n)[i],
        ) by {
            if i < prefix.len() {
                assert(nat_text(n)[i] == prefix[i]);
            } else {
                assert(nat_text(n)[i] == digit_char(n % 10));
            }
        }
    }
}

/// Printing a 64-bit integer and reading it back yields the integer: the
/// numeric leaves of a document survive a serialization round trip exactly.
pub proof fn lemma_i64_text_round_trip(n: i64)
    ensures
        parse_i64_spec(i64_text(n)) == Some(n),
{
    if n >= 0 {
        lemma_nat_text_value(n as nat);
        assert(i64_text(n)[0] != '-');
    } else {
        let mag = (0 - n as int) as nat;
        lemma_nat_text_value(mag);
        let s = i64_text(n);
        assert(s == seq!['-'] + nat_text(mag));
        assert(s[0] == '-');
        assert(s.drop_first() =~= nat_text(mag));
        assert(mag <= 0x8000000000000000);
        assert(parse_i64_spec(s) == Some((0 - digits_val(nat_text(mag))) as i64));
        assert((0 - mag as int) as i64 == n);
    }
}

} // verus!