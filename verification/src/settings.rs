use vstd::prelude::*;

verus! {

/// The database port used when the environment names none.
pub const DEFAULT_DATABASE_PORT: u16 = 5432;

/// A decimal digit character.
pub open spec fn is_decimal_digit(c: char) -> bool {
    '0' <= c <= '9'
}

/// The value of a sequence of decimal digits, most significant first.
pub open spec fn digits_value(s: Seq<char>) -> int
    decreases s.len(),
{
    if s.len() == 0 {
        0
    } else {
        digits_value(s.drop_last()) * 10 + (s.last() as int - '0' as int)
    }
}

/// The digits of a port number's text: the text without a leading `+`.
pub open spec fn port_digits(text: Seq<char>) -> Seq<char> {
    if text.len() > 0 && text[0] == '+' {
        text.drop_first()
    } else {
        text
    }
}

/// A port number's text: an optional `+`, then at least one decimal digit, for a value
/// that a port number can hold.
pub open spec fn is_port_text(text: Seq<char>) -> bool {
    let d = port_digits(text);
    &&& d.len() > 0
    &&& forall|i: int| 0 <= i < d.len() ==> is_decimal_digit(#[trigger] d[i])
    &&& digits_value(d) <= 65535
}

/// Reads a port number written in decimal, as `u16::from_str_radix(text, 10)` does.
pub fn parse_port(text: &str) -> (r: Option<u16>)
    ensures
        r is Some <==> is_port_text(text@),
        r matches Some(p) ==> p as int == digits_value(port_digits(text@)),
{
    let len = text.unicode_len();
    let start: usize = if len > 0 && text.get_char(0) == '+' { 1 } else { 0 };
    let ghost digits = port_digits(text@);
    assert(digits =~= text@.subrange(start as int, len as int));
    if start >= len {
        return None;
    }
    let mut value: u32 = 0;
    let mut all_digits = true;
    let mut i = start;
    while i < len
        invariant
            start <= i <= len,
            len == text@.len(),
            digits == text@.subrange(start as int, len as int),
            all_digits <==> forall|j: int| start <= j < i ==> is_decimal_digit(#[trigger] text@[j]),
            all_digits ==> value as int == if digits_value(text@.subrange(start as int, i as int))
                > 65536 {
                65536
            } else {
                digits_value(text@.subrange(start as int, i as int))
            },
            all_digits ==> digits_value(text@.subrange(start as int, i as int)) >= 0,
            value <= 65536,
        decreases len - i,
    {
        let c = text.get_char(i);
        let ghost prefix = text@.subrange(start as int, i as int);
        let ghost next = text@.subrange(start as int, i + 1);
        assert(next.drop_last() =~= prefix);
        if '0' <= c && c <= '9' {
            let d = (c as u32) - ('0' as u32);
            let v = value * 10 + d;
            value = if v > 65536 { 65536 } else { v };
        } else {
            all_digits = false;
        }
        i = i + 1;
    }
    assert(text@.subrange(start as int, len as int) =~= digits);
    assert(all_digits <==> forall|j: int| 0 <= j < digits.len() ==> is_decimal_digit(#[trigger] digits[j])) by {
        if !all_digits {
            let j = choose|j: int| start <= j < len && !is_decimal_digit(#[trigger] text@[j]);
            assert(!is_decimal_digit(digits[j - start]));
        } else {
            assert forall|j: int| 0 <= j < digits.len() implies is_decimal_digit(#[trigger] digits[j]) by {
                assert(digits[j] == text@[start + j]);
            }
        }
    }
    if all_digits && value <= 65535 {
        Some(value as u16)
    } else {
        None
    }
}

/// The database port from the environment's setting: the default where there is none,
/// and nothing where the setting is not a port number.
pub fn database_port(setting: Option<&str>) -> (r: Option<u16>)
    ensures
        match setting {
            None => r == Some(DEFAULT_DATABASE_PORT),
            Some(text) => (r is Some <==> is_port_text(text@)) && (r matches Some(p) ==> p as int
                == digits_value(port_digits(text@))),
        },
{
    match setting {
        None => Some(DEFAULT_DATABASE_PORT),
        Some(text) => parse_port(text),
    }
}

} // verus!
