//! What holds of every call of the functions of these modules.
//!
//! Each law speaks of what a call was given and what came of it.

use vstd::prelude::*;

use super::double_buffer::{DoubleBufferable, DoubleBuffered};
use super::geometry::{Rectangle, Size};
use super::text::{
    c_string, c_strings, contains_name, copy, push_decimal, push_hexadecimal, push_joined,
    push_signed,
};

verus! {

/// What a digit counts, where it is one.
pub open spec fn digit_value(c: char) -> int {
    if '0' <= c <= '9' {
        c as int - '0' as int
    } else if 'a' <= c <= 'f' {
        c as int - 'a' as int + 10
    } else {
        -1
    }
}

/// The number that a text of digits stands for.
pub open spec fn value(text: Seq<char>, base: int) -> int
    decreases text.len(),
{
    if text.len() == 0 {
        0
    } else {
        value(text.drop_last(), base) * base + digit_value(text.last())
    }
}

/// A text is that of a number: of at least one digit, and without zeros before it.
pub open spec fn is_text_of(text: Seq<char>, n: int, base: int) -> bool {
    &&& text.len() >= 1
    &&& text.len() > 1 ==> text[0] != '0'
    &&& forall|i: int| 0 <= i < text.len() ==> 0 <= digit_value(#[trigger] text[i]) < base
    &&& value(text, base) == n
}

proof fn lemma_digits(n: nat, base: nat)
    requires
        2 <= base <= 16,
    ensures
        is_text_of(super::text::digits(n, base), n as int, base as int),
        n > 0 ==> super::text::digits(n, base)[0] != '0',
    decreases n,
{
    let text = super::text::digits(n, base);
    if n < base {
        assert(text =~= seq![super::text::digit_char(n)]);
        assert(text.drop_last() =~= Seq::<char>::empty());
        assert(value(text.drop_last(), base as int) == 0);
        assert(digit_value(text.last()) == n);
    } else {
        assert(0 < n / base < n && n % base < base && (n / base) * base + n % base == n)
            by (nonlinear_arith)
            requires
                n >= base,
                base >= 2,
        ;
        lemma_digits(n / base, base);
        let front = super::text::digits(n / base, base);
        let last = super::text::digit_char(n % base);
        assert(text =~= front.push(last));
        assert(text.drop_last() =~= front);
        assert(text[0] == front[0]);
        assert(digit_value(last) == n % base);
        assert forall|i: int| 0 <= i < text.len() implies 0 <= digit_value(#[trigger] text[i])
            < base by {
            if i < front.len() {
                assert(text[i] == front[i]);
            }
        }
    }
}

/// A number is appended in decimal: what is appended reads as that number.
pub proof fn numbers_read_back(out: &mut String, n: u64)
    requires
        call_ensures(push_decimal, (out, n), ()),
    ensures
        old(out)@ == final(out)@.take(old(out)@.len() as int),
        is_text_of(final(out)@.skip(old(out)@.len() as int), n as int, 10),
{
    lemma_digits(n as nat, 10);
    let text = super::text::digits(n as nat, 10);
    assert(final(out)@.take(old(out)@.len() as int) =~= old(out)@);
    assert(final(out)@.skip(old(out)@.len() as int) =~= text);
}

/// A signed number is appended in decimal: what is appended reads as that number, after a minus
/// sign where it is negative and nowhere else.
pub proof fn signed_numbers_read_back(out: &mut String, n: i32)
    requires
        call_ensures(push_signed, (out, n), ()),
    ensures
        old(out)@ == final(out)@.take(old(out)@.len() as int),
        n >= 0 ==> is_text_of(final(out)@.skip(old(out)@.len() as int), n as int, 10),
        n < 0 ==> final(out)@.len() > old(out)@.len() && final(out)@[old(out)@.len() as int] == '-'
            && is_text_of(final(out)@.skip(old(out)@.len() as int + 1), -n, 10),
{
    let length = old(out)@.len() as int;
    assert(final(out)@.take(length) =~= old(out)@);
    if n < 0 {
        lemma_digits((-n) as nat, 10);
        assert(final(out)@.skip(length + 1) =~= super::text::digits((-n) as nat, 10));
    } else {
        lemma_digits(n as nat, 10);
        assert(final(out)@.skip(length) =~= super::text::digits(n as nat, 10));
    }
}

/// A number is appended in hexadecimal, in lower case: what is appended reads as that number.
pub proof fn hexadecimal_numbers_read_back(out: &mut String, n: u32)
    requires
        call_ensures(push_hexadecimal, (out, n), ()),
    ensures
        old(out)@ == final(out)@.take(old(out)@.len() as int),
        is_text_of(final(out)@.skip(old(out)@.len() as int), n as int, 16),
{
    lemma_digits(n as nat, 16);
    let text = super::text::digits(n as nat, 16);
    assert(final(out)@.take(old(out)@.len() as int) =~= old(out)@);
    assert(final(out)@.skip(old(out)@.len() as int) =~= text);
}

/// The texts that stand for numbers in messages and paths read as those numbers.
pub proof fn texts_of_numbers_read_back(n: nat)
    ensures
        is_text_of(super::text::decimal(n), n as int, 10),
        is_text_of(super::text::hexadecimal(n), n as int, 16),
        is_text_of(super::text::signed_decimal(n as int), n as int, 10),
        n > 0 ==> super::text::signed_decimal(-(n as int)).len() > 0
            && super::text::signed_decimal(-(n as int))[0] == '-' && is_text_of(
            super::text::signed_decimal(-(n as int)).skip(1),
            n as int,
            10,
        ),
{
    lemma_digits(n, 10);
    lemma_digits(n, 16);
    if n > 0 {
        assert(super::text::signed_decimal(-(n as int)).skip(1) =~= super::text::decimal(n));
    }
}

/// The names of a list are appended in order: one name as it is, and each further one behind a
/// comma and a space.
pub proof fn names_are_joined_by_commas(
    first: &mut String,
    second: &mut String,
    shorter: Vec<String>,
    longer: Vec<String>,
    name: String,
)
    requires
        call_ensures(push_joined, (first, &shorter), ()),
        call_ensures(push_joined, (second, &longer), ()),
        old(first)@ == old(second)@,
        longer@ == shorter@.push(name),
    ensures
        shorter@.len() == 0 ==> final(first)@ == old(first)@ && final(second)@ == old(second)@
            + name@,
        shorter@.len() > 0 ==> final(second)@ == final(first)@ + ", "@ + name@,
{
    reveal_strlit(", ");
    assert(longer@.drop_last() =~= shorter@);
    assert(longer@.last() == name);
    if shorter@.len() == 0 {
        assert(final(first)@ =~= old(first)@);
        assert(longer@[0] == name);
    } else {
        assert(", "@ =~= seq![',', ' ']);
        assert(final(second)@ =~= final(first)@ + ", "@ + name@);
    }
}

/// A copy of a text is that text, and a text is found in a list exactly if one of its texts is the
/// same.
pub proof fn copies_are_equal_and_found(
    text: String,
    names: Vec<String>,
    i: int,
    same: String,
    found: bool,
)
    requires
        call_ensures(copy, (&text,), same),
        call_ensures(contains_name, (&names, &same), found),
    ensures
        same@ == text@,
        0 <= i < names@.len() && names@[i]@ == text@ ==> found,
        (forall|j: int| 0 <= j < names@.len() ==> (#[trigger] names@[j])@ != text@) ==> !found,
{
}

/// A text becomes its bytes with a zero behind them exactly if none of them is a zero. Otherwise
/// the place of the first zero is told.
pub proof fn c_strings_end_at_their_only_zero(text: String, i: int, r: Result<Vec<u8>, usize>)
    requires
        call_ensures(c_string, (&text,), r),
        0 <= i < vstd::utf8::encode_utf8(text@).len(),
    ensures
        ({
            let bytes = vstd::utf8::encode_utf8(text@);
            &&& bytes[i] == 0 ==> (r matches Err(position) && position <= i)
            &&& r matches Ok(string) ==> {
                &&& string@.len() == bytes.len() + 1
                &&& string@[i] == bytes[i]
                &&& string@.last() == 0
            }
            &&& r matches Err(position) ==> position < bytes.len() && bytes[position as int] == 0
        }),
{
    let bytes = vstd::utf8::encode_utf8(text@);
    match r {
        Err(position) => {
            if i < position && bytes[i] == 0 {
                assert(bytes.take(position as int)[i] == 0);
            }
        },
        Ok(string) => {
            assert(bytes[i] == 0 ==> bytes.contains(0u8));
        },
    }
}

/// The names of a list become C strings, each the one that it becomes alone. Where some cannot, the
/// first that cannot is told, and the place of its first zero.
pub proof fn lists_become_c_strings_one_by_one(
    names: Vec<String>,
    i: int,
    alone: Result<Vec<u8>, usize>,
    r: Result<Vec<Vec<u8>>, (usize, usize)>,
)
    requires
        call_ensures(c_strings, (&names,), r),
        0 <= i < names@.len(),
        call_ensures(c_string, (&names@[i],), alone),
    ensures
        r matches Ok(strings) ==> strings@.len() == names@.len() && (alone matches Ok(string)
            && strings@[i]@ == string@),
        r matches Err((j, position)) ==> {
            &&& j < names@.len()
            &&& i < j ==> alone is Ok
            &&& i == j ==> (alone matches Err(same) && same == position)
        },
{
    let bytes = vstd::utf8::encode_utf8(names@[i]@);
    match r {
        Ok(strings) => {
            assert(super::text::no_nul(names@[i]@));
            match alone {
                Ok(_) => {},
                Err(p) => {
                    assert(bytes[p as int] == 0u8);
                },
            }
        },
        Err((j, position)) => {
            if i <= j {
                match alone {
                    Ok(_) => {
                        if i == j {
                            assert(bytes[position as int] == 0u8);
                        }
                    },
                    Err(p) => {
                        assert(bytes[p as int] == 0u8);
                        if i < j {
                            assert(super::text::no_nul(names@[i]@));
                        } else if p < position {
                            assert(bytes.take(position as int)[p as int] == 0u8);
                        } else if position < p {
                            assert(bytes.take(p as int)[position as int] == 0u8);
                        }
                    },
                }
            }
        },
    }
}

/// A rectangle has the place and the size that it was given.
pub proof fn rectangles_are_as_given(loc: (i32, i32), size: Size<i32>, r: Rectangle<i32>)
    requires
        call_ensures(Rectangle::<i32>::from_loc_and_size, (loc, size), r),
    ensures
        r.loc.x == loc.0 && r.loc.y == loc.1,
        r.size.w == size.w && r.size.h == size.h,
{
}

/// Applying what is pending keeps it pending, and what comes of merging it into what was current is
/// current afterwards and is returned.
pub proof fn what_is_applied_is_current<T: DoubleBufferable>(
    buffer: &mut DoubleBuffered<T>,
    r: &T,
    pending: &T,
    current: Option<&T>,
    still_pending: &T,
    now_current: Option<&T>,
)
    requires
        call_ensures(DoubleBuffered::<T>::apply_pending, (buffer,), r),
        call_ensures(DoubleBuffered::<T>::pending, (&*old(buffer),), pending),
        call_ensures(DoubleBuffered::<T>::current, (&*old(buffer),), current),
        call_ensures(DoubleBuffered::<T>::pending, (&*final(buffer),), still_pending),
        call_ensures(DoubleBuffered::<T>::current, (&*final(buffer),), now_current),
    ensures
        *still_pending == *pending,
        now_current matches Some(now) && *now == *r,
        current matches Some(before) ==> pending.merges(before, r),
        current is None ==> exists|before: T|
            call_ensures(T::default, (), before) && #[trigger] pending.merges(&before, r),
{
}

/// Nothing is current in a new container, and the default is pending.
pub proof fn new_containers_hold_the_default<T: DoubleBufferable>(
    buffer: DoubleBuffered<T>,
    pending: &T,
    current: Option<&T>,
)
    requires
        call_ensures(DoubleBuffered::<T>::new, (), buffer),
        call_ensures(DoubleBuffered::<T>::pending, (&buffer,), pending),
        call_ensures(DoubleBuffered::<T>::current, (&buffer,), current),
    ensures
        call_ensures(T::default, (), *pending),
        current is None,
{
}

/// What is written to the pending value is pending, and what is current stays.
pub proof fn what_is_changed_is_pending<'a, T: DoubleBufferable>(
    buffer: &'a mut DoubleBuffered<T>,
    r: &'a mut T,
    pending: &T,
    current: Option<&T>,
    now_pending: &T,
    still_current: Option<&T>,
)
    requires
        call_ensures(DoubleBuffered::<T>::pending_mut, (buffer,), r),
        call_ensures(DoubleBuffered::<T>::pending, (&*old(buffer),), pending),
        call_ensures(DoubleBuffered::<T>::current, (&*old(buffer),), current),
        call_ensures(DoubleBuffered::<T>::pending, (&*final(buffer),), now_pending),
        call_ensures(DoubleBuffered::<T>::current, (&*final(buffer),), still_current),
    ensures
        *old(r) == *pending,
        *now_pending == *final(r),
        current is Some <==> still_current is Some,
        current matches Some(value) ==> (still_current matches Some(same) && *same == *value),
{
}

} // verus!
