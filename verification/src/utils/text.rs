//! Text of numbers, as they stand in protocol error messages, paths and command lines.

use vstd::prelude::*;
use vstd::string::*;

verus! {

/// The character of a digit below sixteen, in lower case.
pub open spec fn digit_char(d: nat) -> char {
    if d < 10 {
        (48 + d) as char
    } else {
        (87 + d) as char
    }
}

/// The digits of `n` in base `base`, most significant first, without leading zeros.
pub open spec fn digits(n: nat, base: nat) -> Seq<char>
    decreases n,
{
    if base < 2 || n < base {
        seq![digit_char(n)]
    } else {
        proof {
            vstd::arithmetic::div_mod::lemma_div_decreases(n as int, base as int);
        }
        digits(n / base, base).push(digit_char(n % base))
    }
}

/// A natural number in decimal.
pub open spec fn decimal(n: nat) -> Seq<char> {
    digits(n, 10)
}

/// An integer in decimal, with a leading minus sign where it is negative.
pub open spec fn signed_decimal(n: int) -> Seq<char> {
    if n < 0 {
        seq!['-'] + decimal((-n) as nat)
    } else {
        decimal(n as nat)
    }
}

/// A natural number in lower case hexadecimal.
pub open spec fn hexadecimal(n: nat) -> Seq<char> {
    digits(n, 16)
}

/// Whether a list of names has the given name.
pub open spec fn has_name(names: Seq<String>, name: Seq<char>) -> bool {
    exists|i: int| 0 <= i < names.len() && (#[trigger] names[i])@ == name
}

/// Whether a list of names has the given name.
pub fn contains_name(names: &Vec<String>, name: &String) -> (r: bool)
    ensures
        r == has_name(names@, name@),
{
    let mut i: usize = 0;
    while i < names.len()
        invariant
            i <= names@.len(),
            forall|j: int| 0 <= j < i ==> (#[trigger] names@[j])@ != name@,
        decreases names@.len() - i,
    {
        if names[i] == *name {
            return true;
        }
        i = i + 1;
    }
    false
}

/// The names of a list, one after the other, with `, ` between them.
pub open spec fn joined(names: Seq<String>) -> Seq<char>
    decreases names.len(),
{
    if names.len() == 0 {
        Seq::empty()
    } else if names.len() == 1 {
        names[0]@
    } else {
        joined(names.drop_last()) + seq![',', ' '] + names.last()@
    }
}

/// Appends the names of a list: see `joined`.
pub fn push_joined(out: &mut String, names: &Vec<String>)
    ensures
        final(out)@ == old(out)@ + joined(names@),
{
    let mut i: usize = 0;
    assert(out@ =~= old(out)@ + joined(names@.take(0)));
    while i < names.len()
        invariant
            i <= names@.len(),
            out@ == old(out)@ + joined(names@.take(i as int)),
        decreases names@.len() - i,
    {
        let ghost next = names@.take(i + 1);
        assert(next.drop_last() =~= names@.take(i as int));
        assert(next.last() == names@[i as int]);
        if i > 0 {
            proof {
                reveal_strlit(", ");
            }
            assert(", "@ =~= seq![',', ' ']);
            out.append(", ");
        }
        out.append(names[i].as_str());
        assert(out@ =~= old(out)@ + joined(next));
        i = i + 1;
    }
    assert(names@.take(i as int) =~= names@);
}

/// The bytes of a text have no zero.
pub open spec fn no_nul(text: Seq<char>) -> bool {
    !vstd::utf8::encode_utf8(text).contains(0u8)
}

/// The bytes of none of the texts have a zero.
pub open spec fn none_has_nul(texts: Seq<String>) -> bool {
    forall|i: int| 0 <= i < texts.len() ==> no_nul((#[trigger] texts[i])@)
}

/// The first zero among the bytes of a text is at `position`.
pub open spec fn first_nul(text: Seq<char>, position: int) -> bool {
    let bytes = vstd::utf8::encode_utf8(text);
    &&& 0 <= position < bytes.len()
    &&& bytes[position] == 0
    &&& !bytes.take(position).contains(0u8)
}

/// The bytes of a text, ended by a zero. Fails with the position of the first zero in the text.
pub fn c_string(text: &String) -> (r: Result<Vec<u8>, usize>)
    ensures
        match r {
            Ok(bytes) => no_nul(text@) && bytes@ == vstd::utf8::encode_utf8(text@).push(0),
            Err(position) => first_nul(text@, position as int),
        },
{
    let mut bytes: Vec<u8> = text.as_str().as_bytes_vec();
    let ghost all = bytes@;
    let mut i: usize = 0;
    while i < bytes.len()
        invariant
            i <= bytes@.len(),
            bytes@ == all,
            all == vstd::utf8::encode_utf8(text@),
            forall|j: int| 0 <= j < i ==> all[j] != 0,
        decreases bytes@.len() - i,
    {
        if bytes[i] == 0 {
            return Err(i);
        }
        i = i + 1;
    }
    bytes.push(0);
    Ok(bytes)
}

/// The names of a list as C strings: each without a zero, and ended by one.
pub open spec fn are_c_strings(names: Seq<String>, strings: Seq<Vec<u8>>) -> bool {
    &&& strings.len() == names.len()
    &&& forall|i: int|
        0 <= i < names.len() ==> {
            &&& no_nul((#[trigger] names[i])@)
            &&& strings[i]@ == vstd::utf8::encode_utf8(names[i]@).push(0)
        }
}

/// Name `i` of a list is the first that has a zero, at `position`.
pub open spec fn first_with_nul(names: Seq<String>, i: int, position: int) -> bool {
    &&& 0 <= i < names.len()
    &&& first_nul(names[i]@, position)
    &&& forall|j: int| 0 <= j < i ==> no_nul((#[trigger] names[j])@)
}

/// The first name of a list that has a zero is `name`, and it has it at `position`.
pub open spec fn refused_name(names: Seq<String>, name: Seq<char>, position: int) -> bool {
    exists|i: int| #[trigger] first_with_nul(names, i, position) && names[i]@ == name
}

/// The names of a list as C strings. Fails with the first name that has a zero, and where it has
/// it.
pub fn c_strings(names: &Vec<String>) -> (r: Result<Vec<Vec<u8>>, (usize, usize)>)
    ensures
        match r {
            Ok(strings) => are_c_strings(names@, strings@),
            Err((i, position)) => first_with_nul(names@, i as int, position as int),
        },
{
    let mut strings: Vec<Vec<u8>> = Vec::new();
    let mut i: usize = 0;
    while i < names.len()
        invariant
            i <= names@.len(),
            strings@.len() == i,
            forall|j: int|
                0 <= j < i ==> {
                    &&& no_nul((#[trigger] names@[j])@)
                    &&& strings@[j]@ == vstd::utf8::encode_utf8(names@[j]@).push(0)
                },
        decreases names@.len() - i,
    {
        match c_string(&names[i]) {
            Ok(string) => {
                strings.push(string);
            },
            Err(position) => {
                return Err((i, position));
            },
        }
        i = i + 1;
    }
    Ok(strings)
}

/// A copy of a text.
pub fn copy(text: &String) -> (r: String)
    ensures
        r@ == text@,
{
    text.as_str().to_owned()
}

/// Appends the character of one digit.
fn push_digit(out: &mut String, d: u64)
    requires
        d < 16,
    ensures
        final(out)@ == old(out)@.push(digit_char(d as nat)),
{
    let text: &str = match d {
        0 => "0",
        1 => "1",
        2 => "2",
        3 => "3",
        4 => "4",
        5 => "5",
        6 => "6",
        7 => "7",
        8 => "8",
        9 => "9",
        10 => "a",
        11 => "b",
        12 => "c",
        13 => "d",
        14 => "e",
        _ => "f",
    };
    proof {
        reveal_strlit("0");
        reveal_strlit("1");
        reveal_strlit("2");
        reveal_strlit("3");
        reveal_strlit("4");
        reveal_strlit("5");
        reveal_strlit("6");
        reveal_strlit("7");
        reveal_strlit("8");
        reveal_strlit("9");
        reveal_strlit("a");
        reveal_strlit("b");
        reveal_strlit("c");
        reveal_strlit("d");
        reveal_strlit("e");
        reveal_strlit("f");
    }
    assert(text@ =~= seq![digit_char(d as nat)]);
    out.append(text);
    assert(out@ =~= old(out)@.push(digit_char(d as nat)));
}

/// Appends the digits of `n` in base `base`.
fn push_digits(out: &mut String, n: u64, base: u64)
    requires
        2 <= base <= 16,
    ensures
        final(out)@ == old(out)@ + digits(n as nat, base as nat),
    decreases n,
{
    if n >= base {
        assert(n / base < n) by (nonlinear_arith)
            requires
                n >= base,
                base >= 2,
        ;
        assert(n % base < base) by (nonlinear_arith)
            requires
                base >= 2,
        ;
        push_digits(out, n / base, base);
        push_digit(out, n % base);
        assert((n / base) as nat == (n as nat) / (base as nat));
        assert((n % base) as nat == (n as nat) % (base as nat));
    } else {
        push_digit(out, n);
    }
    assert(out@ =~= old(out)@ + digits(n as nat, base as nat));
}

/// Appends `n` in decimal.
pub fn push_decimal(out: &mut String, n: u64)
    ensures
        final(out)@ == old(out)@ + decimal(n as nat),
{
    push_digits(out, n, 10);
}

/// Appends `n` in decimal, with a leading minus sign where it is negative.
pub fn push_signed(out: &mut String, n: i32)
    ensures
        final(out)@ == old(out)@ + signed_decimal(n as int),
{
    if n < 0 {
        proof {
            reveal_strlit("-");
        }
        out.append("-");
        push_digits(out, (-(n as i64)) as u64, 10);
        assert(out@ =~= old(out)@ + signed_decimal(n as int));
    } else {
        push_digits(out, n as u64, 10);
    }
}

/// Appends `n` in lower case hexadecimal.
pub fn push_hexadecimal(out: &mut String, n: u32)
    ensures
        final(out)@ == old(out)@ + hexadecimal(n as nat),
{
    push_digits(out, n as u64, 16);
}

/// A number has at most as many digits as the power of ten that bounds it has zeros.
pub proof fn decimal_len_bound(n: nat, bound: nat, zeros: nat)
    requires
        zeros >= 1,
        bound == vstd::arithmetic::power::pow(10, zeros) as nat,
        n < bound,
    ensures
        1 <= decimal(n).len() <= zeros,
    decreases zeros,
{
    vstd::arithmetic::power::lemma_pow_positive(10, zeros);
    reveal(vstd::arithmetic::power::pow);
    if n >= 10 {
        if zeros == 1 {
            assert(vstd::arithmetic::power::pow(10, 1) == 10 * vstd::arithmetic::power::pow(10, 0));
            assert(vstd::arithmetic::power::pow(10, 0) == 1);
        }
        let smaller: nat = (zeros - 1) as nat;
        vstd::arithmetic::power::lemma_pow_positive(10, smaller);
        assert(vstd::arithmetic::power::pow(10, zeros) == 10 * vstd::arithmetic::power::pow(
            10,
            smaller,
        ));
        decimal_len_bound(n / 10, vstd::arithmetic::power::pow(10, smaller) as nat, smaller);
    }
}

} // verus!
