//! The names of the variables that hold debug streams.

use vstd::prelude::*;
use vstd::string::StrSliceExecFns;
use vstd::string::StringExecFns;

verus! {

/// Whether `c` is an ASCII letter or digit.
pub open spec fn is_ascii_alphanumeric(c: char) -> bool {
    ('0' <= c <= '9') || ('A' <= c <= 'Z') || ('a' <= c <= 'z')
}

/// `c` in upper case, if it is an ASCII letter in lower case; `c` itself
/// otherwise.
pub open spec fn to_ascii_uppercase(c: char) -> char {
    if 'a' <= c <= 'z' {
        ((c as u8) - 32) as char
    } else {
        c
    }
}

/// The ASCII letters and digits of `name`, in order and in upper case.
pub open spec fn sanitized(name: Seq<char>) -> Seq<char>
    decreases name.len(),
{
    if name.len() == 0 {
        Seq::empty()
    } else if is_ascii_alphanumeric(name.last()) {
        sanitized(name.drop_last()).push(to_ascii_uppercase(name.last()))
    } else {
        sanitized(name.drop_last())
    }
}

/// The character for a digit.
pub open spec fn digit(d: nat) -> char {
    ((0x30 + d) as u8) as char
}

/// The digits of `n` in base ten, the highest first, without leading
/// zeroes.
pub open spec fn decimal(n: nat) -> Seq<char>
    decreases n,
{
    if n < 10 {
        seq![digit(n)]
    } else {
        decimal(n / 10).push(digit(n % 10))
    }
}

/// The digits of `n` in base ten, as text.
///
/// This formats the number with `format!` of the standard library, which
/// writes an unsigned number as its digits in base ten, the highest first,
/// with no sign and no leading zeroes.
#[verifier::external_body]
fn decimal_string(n: usize) -> (r: String)
    ensures
        r@ == decimal(n as nat),
{
    format!("{n}")
}

/// Adds `c` at the end of `text`.
///
/// This calls `String::push` of the standard library, which appends the
/// character and leaves what was there before.
#[verifier::external_body]
fn push_char(text: &mut String, c: char)
    ensures
        final(text)@ == old(text)@.push(c),
{
    text.push(c)
}

/// The name of the variable for a stream: a fixed prefix, then the
/// letters and digits of the stream's name in upper case, or, for a stream
/// without a name, `ANONYMOUS_` and `number`.
pub open spec fn stream_var_name_spec(stream_name: Option<Seq<char>>, number: Seq<char>) -> Seq<char> {
    "DEBUG_STREAM_OUTPUT_"@ + match stream_name {
        Some(name) => sanitized(name),
        None => "ANONYMOUS_"@ + number,
    }
}

/// The name of the variable for a stream, given the number of the stream
/// as text.
pub fn stream_var_name(stream_name: Option<&str>, number: &str) -> (r: String)
    ensures
        r@ == stream_var_name_spec(
            match stream_name {
                Some(name) => Some(name@),
                None => None,
            },
            number@,
        ),
{
    let mut r = String::from_str("DEBUG_STREAM_OUTPUT_");
    match stream_name {
        None => {
            r.append("ANONYMOUS_");
            r.append(number);
            assert(r@ =~= "DEBUG_STREAM_OUTPUT_"@ + ("ANONYMOUS_"@ + number@));
        },
        Some(name) => {
            let len: usize = name.unicode_len();
            let mut i: usize = 0;
            assert(name@.subrange(0, 0) =~= Seq::<char>::empty());
            assert(r@ =~= "DEBUG_STREAM_OUTPUT_"@ + sanitized(name@.subrange(0, 0)));
            while i < len
                invariant
                    i <= len,
                    len == name@.len(),
                    r@ == "DEBUG_STREAM_OUTPUT_"@ + sanitized(name@.subrange(0, i as int)),
                decreases len - i,
            {
                let c: char = name.get_char(i);
                proof {
                    assert(name@.subrange(0, i + 1).drop_last() =~= name@.subrange(0, i as int));
                    assert(name@.subrange(0, i + 1).last() == c);
                }
                if ('0' <= c && c <= '9') || ('A' <= c && c <= 'Z') {
                    push_char(&mut r, c);
                } else if 'a' <= c && c <= 'z' {
                    push_char(&mut r, ((c as u8) - 32) as char);
                }
                assert(r@ =~= "DEBUG_STREAM_OUTPUT_"@ + sanitized(name@.subrange(0, i + 1)));
                i += 1;
            }
            assert(name@.subrange(0, len as int) =~= name@);
        },
    }
    r
}

/// The name of the variable for stream number `enumeration`.
pub fn static_stream_var_name(enumeration: usize, stream_name: Option<&str>) -> (r: String)
    ensures
        r@ == stream_var_name_spec(
            match stream_name {
                Some(name) => Some(name@),
                None => None,
            },
            decimal(enumeration as nat),
        ),
{
    let digits = decimal_string(enumeration);
    stream_var_name(stream_name, digits.as_str())
}

} // verus!
