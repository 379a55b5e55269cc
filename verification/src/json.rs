//! JSON text, as far as the pipe's messages need it: strings, whole numbers,
//! and lists of strings, in the compact form without blanks.

use vstd::prelude::*;
use vstd::string::StringExecFns;

verus! {

/// The JSON text of a string value: the string between double quotes, with
/// the characters escaped that JSON does not take as they are.
pub uninterp spec fn json_string_text(s: Seq<char>) -> Seq<char>;

/// Calls `serde_json` to write `s` as a JSON string value
/// (`serde_json::Value::from(&str)`, then its `Display`). The contract gives
/// that text a name, [`json_string_text`], and claims nothing else of it.
#[verifier::external_body]
pub(crate) fn json_string(s: &str) -> (text: String)
    ensures
        text@ == json_string_text(s@),
{
    serde_json::Value::from(s).to_string()
}

/// The decimal digit of `d`.
pub open spec fn spec_digit(d: int) -> char {
    if d == 0 {
        '0'
    } else if d == 1 {
        '1'
    } else if d == 2 {
        '2'
    } else if d == 3 {
        '3'
    } else if d == 4 {
        '4'
    } else if d == 5 {
        '5'
    } else if d == 6 {
        '6'
    } else if d == 7 {
        '7'
    } else if d == 8 {
        '8'
    } else {
        '9'
    }
}

/// The decimal digits of `n`, without leading zeros.
pub open spec fn spec_digits(n: nat) -> Seq<char>
    decreases n,
{
    if n < 10 {
        seq![spec_digit(n as int)]
    } else {
        spec_digits(n / 10).push(spec_digit((n % 10) as int))
    }
}

/// The decimal text of `n`: a minus sign where it is negative, then its
/// digits.
pub open spec fn spec_decimal(n: int) -> Seq<char> {
    if n < 0 {
        seq!['-'] + spec_digits((-n) as nat)
    } else {
        spec_digits(n as nat)
    }
}

/// The texts of `items`, with a comma between each two.
pub open spec fn spec_join(items: Seq<Seq<char>>) -> Seq<char>
    decreases items.len(),
{
    if items.len() == 0 {
        Seq::empty()
    } else if items.len() == 1 {
        items[0]
    } else {
        spec_join(items.drop_last()) + seq![','] + items.last()
    }
}

/// What each string of `items` holds.
pub open spec fn spec_texts(items: Seq<String>) -> Seq<Seq<char>> {
    items.map_values(|s: String| s@)
}

/// The JSON text of a list of strings.
pub open spec fn spec_string_array(items: Seq<Seq<char>>) -> Seq<char> {
    seq!['['] + spec_join(items.map_values(|s: Seq<char>| json_string_text(s))) + seq![']']
}

/// The text of one decimal digit.
fn digit_str(d: u64) -> (s: &'static str)
    requires
        d < 10,
    ensures
        s@ == seq![spec_digit(d as int)],
{
    proof {
        reveal_strlit("0");
        reveal_strlit("1");
        reveal_strlit("2");
        reveal_strlit("3");
        reveal_strlit("4");
        reveal_strlit("5");
        reveal_strlit("6");
        reveal_strlit("7");
        reveal_strlit("8");
        reveal_strlit("9");
    }
    let s = if d == 0 {
        "0"
    } else if d == 1 {
        "1"
    } else if d == 2 {
        "2"
    } else if d == 3 {
        "3"
    } else if d == 4 {
        "4"
    } else if d == 5 {
        "5"
    } else if d == 6 {
        "6"
    } else if d == 7 {
        "7"
    } else if d == 8 {
        "8"
    } else {
        "9"
    };
    s
}

/// Appends the decimal digits of `n` to `out`.
fn push_digits(out: &mut String, n: u64)
    ensures
        final(out)@ == old(out)@ + spec_digits(n as nat),
    decreases n,
{
    if n >= 10 {
        push_digits(out, n / 10);
    }
    out.append(digit_str(n % 10));
}

/// The decimal text of `n`.
pub fn decimal(n: i64) -> (text: String)
    ensures
        text@ == spec_decimal(n as int),
{
    let mut text = String::new();
    if n < 0 {
        proof {
            reveal_strlit("-");
        }
        text.append("-");
        let magnitude: u64 = (-(n + 1)) as u64 + 1;
        push_digits(&mut text, magnitude);
    } else {
        push_digits(&mut text, n as u64);
    }
    text
}

/// The JSON text of the list `items`.
pub fn string_array(items: &Vec<String>) -> (text: String)
    ensures
        text@ == spec_string_array(spec_texts(items@)),
{
    proof {
        reveal_strlit("[");
        reveal_strlit("]");
    }
    let ghost quoted = spec_texts(items@).map_values(|s: Seq<char>| json_string_text(s));
    let mut text = String::from_str("[");
    let mut i: usize = 0;
    while i < items.len()
        invariant
            i <= items@.len(),
            quoted == spec_texts(items@).map_values(|s: Seq<char>| json_string_text(s)),
            text@ == seq!['['] + spec_join(quoted.take(i as int)),
        decreases items@.len() - i,
    {
        let item = json_string(items[i].as_str());
        assert(quoted.take(i + 1).drop_last() =~= quoted.take(i as int));
        if i > 0 {
            proof {
                reveal_strlit(",");
            }
            text.append(",");
        }
        text.append(item.as_str());
        i = i + 1;
    }
    assert(quoted.take(i as int) =~= quoted);
    text.append("]");
    text
}

} // verus!
