//! JSON texts that the library reads and writes.

use vstd::prelude::*;
use vstd::string::StringExecFns;

verus! {

/// The JSON string literal of `text`: the text in double quotes, escaped.
pub uninterp spec fn json_string_literal(text: Seq<char>) -> Seq<char>;

/// The JSON string literals of `items`, with `separator` between them.
pub open spec fn joined_literals(items: Seq<Seq<char>>, separator: Seq<char>) -> Seq<char>
    decreases items.len(),
{
    if items.len() == 0 {
        Seq::empty()
    } else if items.len() == 1 {
        json_string_literal(items[0])
    } else {
        joined_literals(items.drop_last(), separator) + separator + json_string_literal(
            items.last(),
        )
    }
}

/// The compact JSON array of the strings `items`: the literals between
/// square brackets, with commas between them.
pub open spec fn json_array_text(items: Seq<Seq<char>>) -> Seq<char> {
    "["@ + joined_literals(items, ","@) + "]"@
}

/// The indented JSON array of the strings `items`: each literal on a line
/// of its own, behind two spaces; `[]` for no strings.
pub open spec fn json_array_pretty_text(items: Seq<Seq<char>>) -> Seq<char> {
    if items.len() == 0 {
        "[]"@
    } else {
        "[\n  "@ + joined_literals(items, ",\n  "@) + "\n]"@
    }
}

/// The strings of the JSON array `text`, in order; `None` where `text` is no
/// JSON array of strings.
pub uninterp spec fn json_array_parse(text: Seq<char>) -> Option<Seq<Seq<char>>>;

/// The string that the JSON document `document` holds at the JSON Pointer
/// `pointer`; `None` where `document` is no JSON document, or holds nothing
/// or no string there.
pub uninterp spec fn json_string_at(document: Seq<char>, pointer: Seq<char>) -> Option<Seq<char>>;

/// The unsigned integer that the JSON document `document` holds at the JSON
/// Pointer `pointer`; `None` where `document` is no JSON document, or holds
/// nothing there, or no unsigned integer of at most 64 bits.
pub uninterp spec fn json_u64_at(document: Seq<char>, pointer: Seq<char>) -> Option<u64>;

/// The character of the decimal digit `d`.
pub open spec fn digit_char(d: nat) -> char {
    if d == 0 {
        '0'
    } else if d == 1 {
        '1'
    } else if d == 2 {
        '2'
    } else if d == 3 {
        '3'
    } else if d == 4 {
        '4'
    } else if d == 5 {
        '5'
    } else if d == 6 {
        '6'
    } else if d == 7 {
        '7'
    } else if d == 8 {
        '8'
    } else {
        '9'
    }
}

/// The number `n` in decimal digits, without leading zeros.
pub open spec fn decimal_text(n: nat) -> Seq<char>
    decreases n,
{
    if n < 10 {
        seq![digit_char(n)]
    } else {
        decimal_text(n / 10).push(digit_char(n % 10))
    }
}

/// Writes a text as a JSON string literal.
///
/// Calls `serde_json::to_string` on the text. The serializer cannot fail on
/// a string written to memory. The contract names the result
/// `json_string_literal`.
#[verifier::external_body]
pub(crate) fn quote(text: &str) -> (literal: String)
    ensures
        literal@ == json_string_literal(text@),
{
    match serde_json::to_string(text) {
        Ok(s) => s,
        Err(_) => String::new(),
    }
}

/// Reads a JSON array of strings.
///
/// Calls `serde_json::from_str` for a `Vec<String>`. The contract names the
/// outcome `json_array_parse`.
#[verifier::external_body]
pub(crate) fn parse_strings(text: &str) -> (items: Option<Vec<String>>)
    ensures
        items.deep_view() == json_array_parse(text@),
{
    match serde_json::from_str::<Vec<String>>(text) {
        Ok(v) => Some(v),
        Err(_) => None,
    }
}

/// Reads the string at a JSON Pointer of a JSON document.
///
/// Parses `document` with `serde_json::from_str` into a `serde_json::Value`,
/// looks `pointer` up with `Value::pointer` and takes the string with
/// `Value::as_str`. The contract names the outcome `json_string_at`.
#[verifier::external_body]
pub(crate) fn string_at(document: &str, pointer: &str) -> (found: Option<String>)
    ensures
        found.deep_view() == json_string_at(document@, pointer@),
{
    match serde_json::from_str::<serde_json::Value>(document) {
        Ok(v) => v.pointer(pointer).and_then(|x| x.as_str()).map(|s| s.to_owned()),
        Err(_) => None,
    }
}

/// Reads the unsigned integer at a JSON Pointer of a JSON document.
///
/// Parses `document` with `serde_json::from_str` into a `serde_json::Value`,
/// looks `pointer` up with `Value::pointer` and takes the number with
/// `Value::as_u64`. The contract names the outcome `json_u64_at`.
#[verifier::external_body]
pub(crate) fn u64_at(document: &str, pointer: &str) -> (found: Option<u64>)
    ensures
        found == json_u64_at(document@, pointer@),
{
    match serde_json::from_str::<serde_json::Value>(document) {
        Ok(v) => v.pointer(pointer).and_then(|x| x.as_u64()),
        Err(_) => None,
    }
}

fn digit_text(d: u64) -> (text: &'static str)
    requires
        d < 10,
    ensures
        text@ == seq![digit_char(d as nat)],
{
    proof {
        reveal_strlit("0");
        reveal_strlit("1");
        reveal_strlit("2");
        reveal_strlit("3");
        reveal_strlit("4");
        reveal_strlit("5");
        reveal_strlit("6");
        reveal_strlit("7");
        reveal_strlit("8");
        reveal_strlit("9");
    }
    let text = if d == 0 {
        "0"
    } else if d == 1 {
        "1"
    } else if d == 2 {
        "2"
    } else if d == 3 {
        "3"
    } else if d == 4 {
        "4"
    } else if d == 5 {
        "5"
    } else if d == 6 {
        "6"
    } else if d == 7 {
        "7"
    } else if d == 8 {
        "8"
    } else {
        "9"
    };
    assert(text@ =~= seq![digit_char(d as nat)]);
    text
}

/// The digits `low`, given from the lowest up, as text from the highest
/// down.
spec fn digits_from_high(low: Seq<u64>) -> Seq<char> {
    Seq::new(low.len(), |k: int| digit_char(low[low.len() - 1 - k] as nat))
}

/// Writes a number in decimal digits.
pub fn decimal(n: u64) -> (text: String)
    ensures
        text@ == decimal_text(n as nat),
{
    let mut low: Vec<u64> = Vec::new();
    let mut rest: u64 = n;
    while rest >= 10
        invariant
            decimal_text(n as nat) == decimal_text(rest as nat) + digits_from_high(low@),
            forall|k: int| 0 <= k < low@.len() ==> #[trigger] low@[k] < 10,
        decreases rest,
    {
        let ghost before = low@;
        low.push(rest % 10);
        proof {
            let lower = (rest / 10) as nat;
            assert(decimal_text(rest as nat) == decimal_text(lower).push(
                digit_char((rest % 10) as nat),
            ));
            assert(decimal_text(rest as nat) + digits_from_high(before) =~= decimal_text(lower)
                + digits_from_high(low@));
        }
        rest = rest / 10;
    }
    let mut text = String::from_str(digit_text(rest));
    let mut k: usize = low.len();
    while k > 0
        invariant
            k <= low@.len(),
            forall|j: int| 0 <= j < low@.len() ==> #[trigger] low@[j] < 10,
            text@ == decimal_text(rest as nat) + digits_from_high(low@).take(low@.len() - k),
        decreases k,
    {
        let ghost before = text@;
        k = k - 1;
        text.append(digit_text(low[k]));
        proof {
            let all = digits_from_high(low@);
            let shown = low@.len() - 1 - k;
            assert(all.take(shown + 1) =~= all.take(shown).push(all[shown]));
            assert(text@ =~= decimal_text(rest as nat) + all.take(shown + 1));
        }
    }
    proof {
        let all = digits_from_high(low@);
        assert(all.take(low@.len() as int) =~= all);
    }
    text
}

fn join_literals(items: &Vec<String>, separator: &str) -> (text: String)
    ensures
        text@ == joined_literals(items.deep_view(), separator@),
{
    let ghost all = items.deep_view();
    let mut text = String::new();
    let mut i: usize = 0;
    while i < items.len()
        invariant
            i <= items@.len(),
            all == items.deep_view(),
            all.len() == items@.len(),
            text@ == joined_literals(all.take(i as int), separator@),
        decreases items@.len() - i,
    {
        proof {
            assert(all.take(i as int + 1).drop_last() =~= all.take(i as int));
            assert(all.take(i as int + 1).last() == items@[i as int]@);
            assert(all.take(i as int + 1)[0] == all[0]);
        }
        let ghost before = text@;
        if i > 0 {
            text.append(separator);
        }
        let literal = quote(items[i].as_str());
        text.append(literal.as_str());
        proof {
            if i == 0 {
                assert(before =~= Seq::<char>::empty());
                assert(text@ =~= json_string_literal(all[0]));
            }
        }
        i = i + 1;
    }
    proof {
        assert(all.take(all.len() as int) =~= all);
    }
    text
}

/// Writes a list of strings as a compact JSON array.
pub fn encode_strings(items: &Vec<String>) -> (text: String)
    ensures
        text@ == json_array_text(items.deep_view()),
{
    let mut text = String::from_str("[");
    text.append(join_literals(items, ",").as_str());
    text.append("]");
    text
}

/// Writes a list of strings as an indented JSON array.
pub fn encode_strings_pretty(items: &Vec<String>) -> (text: String)
    ensures
        text@ == json_array_pretty_text(items.deep_view()),
{
    if items.len() == 0 {
        return "[]".to_owned();
    }
    let mut text = String::from_str("[\n  ");
    text.append(join_literals(items, ",\n  ").as_str());
    text.append("\n]");
    text
}

} // verus!
