//! How the library spells values as text: integers in decimal notation, and
//! stored text decoded from its UTF-8 bytes.
use vstd::prelude::*;
use vstd::utf8::{decode_utf8, valid_utf8};
use rusqlite::types::{FromSqlError, ValueRef};

verus! {

/// The ten decimal digits, in order.
pub open spec fn digit_chars() -> Seq<char> {
    seq!['0', '1', '2', '3', '4', '5', '6', '7', '8', '9']
}

/// Decimal notation of a natural number, most significant digit first, with no
/// leading zero (zero itself is "0").
pub open spec fn decimal(n: nat) -> Seq<char>
    decreases n,
{
    if n < 10 {
        seq![digit_chars()[n as int]]
    } else {
        decimal(n / 10).push(digit_chars()[(n % 10) as int])
    }
}

/// Decimal notation of an integer: a minus sign before the magnitude of a
/// negative number.
pub open spec fn signed_decimal(n: int) -> Seq<char> {
    if n < 0 {
        seq!['-'] + decimal((-n) as nat)
    } else {
        decimal(n as nat)
    }
}

/// Decimal digits only, at least one, and no leading zero but for "0" itself.
pub open spec fn canonical_decimal(s: Seq<char>) -> bool {
    &&& s.len() >= 1
    &&& forall|i: int| 0 <= i < s.len() ==> digit_chars().contains(#[trigger] s[i])
    &&& s.len() > 1 ==> s[0] != '0'
}

/// The number a decimal digit stands for.
pub open spec fn digit_value(c: char) -> int {
    if c == '0' {
        0
    } else if c == '1' {
        1
    } else if c == '2' {
        2
    } else if c == '3' {
        3
    } else if c == '4' {
        4
    } else if c == '5' {
        5
    } else if c == '6' {
        6
    } else if c == '7' {
        7
    } else if c == '8' {
        8
    } else {
        9
    }
}

/// The number a string of decimal digits stands for, most significant first.
pub open spec fn decimal_value(s: Seq<char>) -> int
    decreases s.len(),
{
    if s.len() == 0 {
        0
    } else {
        decimal_value(s.drop_last()) * 10 + digit_value(s.last())
    }
}

proof fn lemma_digit_value(d: int)
    requires
        0 <= d < 10,
    ensures
        digit_value(digit_chars()[d]) == d,
{
    let ds = digit_chars();
    assert(ds[0] == '0' && ds[1] == '1' && ds[2] == '2' && ds[3] == '3' && ds[4] == '4');
    assert(ds[5] == '5' && ds[6] == '6' && ds[7] == '7' && ds[8] == '8' && ds[9] == '9');
}

proof fn lemma_digit_char(c: char)
    requires
        digit_chars().contains(c),
    ensures
        0 <= digit_value(c) < 10,
        digit_chars()[digit_value(c)] == c,
        c != '0' ==> digit_value(c) >= 1,
{
    let i = choose|i: int| 0 <= i < digit_chars().len() && digit_chars()[i] == c;
    lemma_digit_value(i);
    assert(digit_chars()[0] == '0');
}

proof fn lemma_leading_digit_positive(s: Seq<char>)
    requires
        s.len() >= 1,
        forall|i: int| 0 <= i < s.len() ==> digit_chars().contains(#[trigger] s[i]),
        s[0] != '0',
    ensures
        decimal_value(s) >= 1,
    decreases s.len(),
{
    lemma_digit_char(s.last());
    if s.len() > 1 {
        let p = s.drop_last();
        assert forall|i: int| 0 <= i < p.len() implies digit_chars().contains(#[trigger] p[i]) by {
            assert(p[i] == s[i]);
        }
        assert(p[0] == s[0]);
        lemma_leading_digit_positive(p);
        assert(decimal_value(s) == decimal_value(p) * 10 + digit_value(s.last()));
    } else {
        assert(s.drop_last() =~= Seq::<char>::empty());
        lemma_digit_char(s[0]);
        assert(s.last() == s[0]);
        assert(decimal_value(s) == decimal_value(s.drop_last()) * 10 + digit_value(s.last()));
    }
}

/// The decimal text of a number is the only text of canonical digits that
/// reads back as that number.
pub proof fn lemma_decimal_unique(s: Seq<char>, n: nat)
    requires
        canonical_decimal(s),
        decimal_value(s) == n,
    ensures
        s == decimal(n),
    decreases s.len(),
{
    lemma_digit_char(s.last());
    let d = digit_value(s.last());
    assert(decimal_value(s) == decimal_value(s.drop_last()) * 10 + d);
    if s.len() == 1 {
        assert(s.drop_last() =~= Seq::<char>::empty());
        assert(n == d);
        assert(s =~= seq![digit_chars()[n as int]]);
    } else {
        let p = s.drop_last();
        assert forall|i: int| 0 <= i < p.len() implies digit_chars().contains(#[trigger] p[i]) by {
            assert(p[i] == s[i]);
        }
        assert(p[0] == s[0]);
        lemma_leading_digit_positive(p);
        assert(decimal_value(s) == decimal_value(p) * 10 + d);
        assert(n / 10 == decimal_value(p));
        assert(n % 10 == d);
        lemma_decimal_unique(p, (n / 10) as nat);
        assert(n >= 10);
        assert(s =~= decimal((n / 10) as nat).push(digit_chars()[(n % 10) as int]));
    }
}

/// The decimal text of a number reads back as that number, and holds only
/// digits, with no leading zero but for zero itself.
pub proof fn lemma_decimal_reads_back(n: nat)
    ensures
        decimal_value(decimal(n)) == n,
        decimal(n).len() >= 1,
        forall|i: int| 0 <= i < decimal(n).len() ==> digit_chars().contains(#[trigger] decimal(n)[i]),
        decimal(n)[0] == '0' ==> n == 0,
        canonical_decimal(decimal(n)),
    decreases n,
{
    if n < 10 {
        assert(decimal(n).drop_last() =~= Seq::<char>::empty());
        assert(digit_chars()[n as int] == decimal(n)[0]);
        lemma_digit_value(n as int);
        assert(decimal(n).last() == digit_chars()[n as int]);
        assert(decimal_value(decimal(n)) == decimal_value(decimal(n).drop_last()) * 10 + digit_value(
            decimal(n).last(),
        ));
    } else {
        lemma_decimal_reads_back(n / 10);
        let d = (n % 10) as int;
        assert(decimal(n).drop_last() =~= decimal(n / 10));
        lemma_digit_value(d);
        assert(decimal(n).last() == digit_chars()[d]);
        assert(decimal_value(decimal(n)) == decimal_value(decimal(n).drop_last()) * 10 + digit_value(
            decimal(n).last(),
        ));
        assert((n / 10) * 10 + n % 10 == n);
        assert forall|i: int| 0 <= i < decimal(n).len() implies digit_chars().contains(
            #[trigger] decimal(n)[i],
        ) by {
            if i < decimal(n).len() - 1 {
                assert(decimal(n)[i] == decimal(n / 10)[i]);
            } else {
                assert(decimal(n)[i] == digit_chars()[d]);
            }
        }
        assert(decimal(n)[0] == decimal(n / 10)[0]);
        assert(decimal(n).len() > 1);
    }
}

/// The text `format_integer` gives reads back as the number: its magnitude
/// after a minus sign for a negative number, the number itself otherwise; in
/// both cases the digits are canonical, so no other text of digits reads back
/// as the same number.
pub proof fn lemma_signed_decimal_reads_back(n: int)
    ensures
        n < 0 ==> signed_decimal(n)[0] == '-' && decimal_value(signed_decimal(n).drop_first()) == -n
            && canonical_decimal(signed_decimal(n).drop_first()),
        n >= 0 ==> decimal_value(signed_decimal(n)) == n && canonical_decimal(signed_decimal(n)),
        n >= 0 ==> signed_decimal(n) == decimal(n as nat),
{
    if n < 0 {
        lemma_decimal_reads_back((-n) as nat);
        assert(signed_decimal(n).drop_first() =~= decimal((-n) as nat));
    } else {
        lemma_decimal_reads_back(n as nat);
    }
}

fn digit_str(d: u64) -> (s: &'static str)
    requires
        d < 10,
    ensures
        s@ == seq![digit_chars()[d as int]],
{
    proof {
        reveal_strlit("0");
        reveal_strlit("1");
        reveal_strlit("2");
        reveal_strlit("3");
        reveal_strlit("4");
        reveal_strlit("5");
        reveal_strlit("6");
        reveal_strlit("7");
        reveal_strlit("8");
        reveal_strlit("9");
    }
    if d == 0 {
        "0"
    } else if d == 1 {
        "1"
    } else if d == 2 {
        "2"
    } else if d == 3 {
        "3"
    } else if d == 4 {
        "4"
    } else if d == 5 {
        "5"
    } else if d == 6 {
        "6"
    } else if d == 7 {
        "7"
    } else if d == 8 {
        "8"
    } else {
        "9"
    }
}

/// Appends the decimal notation of `n` to `out`.
pub fn push_decimal(out: &mut String, n: u64)
    ensures
        final(out)@ == old(out)@ + decimal(n as nat),
    decreases n,
{
    if n >= 10 {
        push_decimal(out, n / 10);
    }
    out.append(digit_str(n % 10));
    proof {
        if n >= 10 {
            assert(decimal(n as nat) == decimal((n / 10) as nat).push(digit_chars()[(n % 10) as int]));
        }
    }
}

/// The decimal notation of a signed integer, as `format!("{}", n)` spells it.
pub fn format_integer(n: i64) -> (s: String)
    ensures
        s@ == signed_decimal(n as int),
        n >= 0 ==> canonical_decimal(s@) && decimal_value(s@) == n,
        n < 0 ==> s@[0] == '-' && canonical_decimal(s@.drop_first()) && decimal_value(s@.drop_first())
            == -n,
{
    proof {
        lemma_signed_decimal_reads_back(n as int);
    }
    let mut s = String::new();
    if n < 0 {
        proof {
            reveal_strlit("-");
        }
        s.append("-");
        let below: i64 = -(n + 1);
        let magnitude: u64 = below as u64 + 1;
        assert(magnitude == -(n as int));
        push_decimal(&mut s, magnitude);
    } else {
        push_decimal(&mut s, n as u64);
    }
    s
}

#[verifier::external_type_specification]
#[verifier::external_body]
pub struct ExFromSqlError(FromSqlError);

/// Reads stored text bytes as a string, with rusqlite's `ValueRef::as_str` on a
/// `ValueRef::Text` value. That method hands the bytes to `std::str::from_utf8`:
/// the claim is that it succeeds exactly when the bytes are valid UTF-8, and
/// then yields the characters they encode. What the error holds is left unsaid.
#[verifier::external_body]
fn value_text_as_str(bytes: &[u8]) -> (r: Result<&str, FromSqlError>)
    ensures
        r is Ok <==> valid_utf8(bytes@),
        r matches Ok(s) ==> s@ == decode_utf8(bytes@),
{
    ValueRef::Text(bytes).as_str()
}

/// Decodes stored text: `Some` with the encoded characters exactly when the
/// bytes are valid UTF-8.
pub fn decode_text(bytes: &[u8]) -> (r: Option<String>)
    ensures
        r is Some <==> valid_utf8(bytes@),
        r matches Some(s) ==> s@ == decode_utf8(bytes@),
{
    match value_text_as_str(bytes) {
        Ok(s) => Some(String::from_str(s)),
        Err(_) => None,
    }
}

} // verus!
