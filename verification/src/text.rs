//! Text that the session hands to a client: decimal numbers, and the JSON
//! form of a chat component.

use vstd::prelude::*;
use vstd::string::*;
use crate::identity::{hex_digit_str, hex_digits};

verus! {

/// The decimal digits of a natural number, without leading zeros.
pub open spec fn natural_text(n: nat) -> Seq<char>
    decreases n,
{
    if n < 10 {
        seq![hex_digits()[n as int]]
    } else {
        natural_text(n / 10).push(hex_digits()[(n % 10) as int])
    }
}

/// An integer in decimal, with a minus sign in front where it is negative.
pub open spec fn decimal_text(value: int) -> Seq<char> {
    if value < 0 {
        seq!['-'] + natural_text((-value) as nat)
    } else {
        natural_text(value as nat)
    }
}

/// Appends the decimal digits of `n`.
fn push_natural(text: &mut String, n: u32)
    ensures
        final(text)@ == old(text)@ + natural_text(n as nat),
    decreases n,
{
    if n >= 10 {
        push_natural(text, n / 10);
    }
    text.append(hex_digit_str((n % 10) as u8));
    assert(text@ =~= old(text)@ + natural_text(n as nat));
}

/// Appends an integer in decimal.
pub fn push_decimal(text: &mut String, value: i32)
    ensures
        final(text)@ == old(text)@ + decimal_text(value as int),
{
    if value < 0 {
        proof {
            reveal_strlit("-");
        }
        text.append("-");
        let magnitude: u32 = (0 - value as i64) as u32;
        push_natural(text, magnitude);
        assert(text@ =~= old(text)@ + decimal_text(value as int));
    } else {
        push_natural(text, value as u32);
    }
}

/// Renders an integer in decimal.
pub fn decimal(value: i32) -> (text: String)
    ensures
        text@ == decimal_text(value as int),
{
    let mut text = String::new();
    push_decimal(&mut text, value);
    assert(text@ =~= decimal_text(value as int));
    text
}

/// The JSON text of an object whose members are the given names, each with
/// a string as its value, as `serde_json` writes it.
pub uninterp spec fn json_object_text(members: Seq<(Seq<char>, Seq<char>)>) -> Seq<char>;

/// The members of an object as pairs of views.
pub open spec fn member_views(members: Seq<(&str, &str)>) -> Seq<(Seq<char>, Seq<char>)> {
    members.map_values(|member: (&str, &str)| (member.0@, member.1@))
}

/// Builds a `serde_json::Value::Object` of string members and renders it
/// with `to_string`. Trusted: the text depends on the members alone, in the
/// order given.
#[verifier::external_body]
pub(crate) fn json_object(members: &Vec<(&str, &str)>) -> (text: String)
    ensures
        text@ == json_object_text(member_views(members@)),
{
    let map: serde_json::Map<String, serde_json::Value> = members.iter().map(
        |member| (member.0.to_owned(), serde_json::Value::String(member.1.to_owned())),
    ).collect();
    serde_json::Value::Object(map).to_string()
}

/// The JSON text of a chat component that shows `text` in the default style.
pub open spec fn plain_component(text: Seq<char>) -> Seq<char> {
    json_object_text(seq![("text"@, text)])
}

/// The JSON text of a chat component that shows `text` in `color`.
pub open spec fn colored_component(text: Seq<char>, color: Seq<char>) -> Seq<char> {
    json_object_text(seq![("text"@, text), ("color"@, color)])
}

/// Renders a chat component that shows `text` in the default style.
pub fn plain_text_json(text: &str) -> (json: String)
    ensures
        json@ == plain_component(text@),
{
    let members = vec![("text", text)];
    assert(member_views(members@) =~= seq![("text"@, text@)]);
    json_object(&members)
}

/// Renders a chat component that shows `text` in `color`.
pub fn colored_text_json(text: &str, color: &str) -> (json: String)
    ensures
        json@ == colored_component(text@, color@),
{
    let members = vec![("text", text), ("color", color)];
    assert(member_views(members@) =~= seq![("text"@, text@), ("color"@, color@)]);
    json_object(&members)
}

} // verus!
