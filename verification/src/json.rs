//! The JSON text of the response bodies.
//!
//! Objects are written in the compact form, without spaces, with their members
//! in the order of declaration. String escaping is `serde_json`'s; integers
//! are written in decimal by `decimal`.
use vstd::prelude::*;
use vstd::string::*;

verus! {

/// The JSON string literal, quotes included, that `serde_json` writes for
/// `text`.
pub uninterp spec fn json_string_text(text: Seq<char>) -> Seq<char>;

/// A character that JSON string literals hold as it is: anything but the
/// quote, the backslash and the control characters below the space.
pub open spec fn is_plain(c: char) -> bool {
    c != '"' && c != '\\' && c as u32 >= 0x20
}

/// A text made of plain characters only.
pub open spec fn is_plain_text(text: Seq<char>) -> bool {
    forall|i: int| 0 <= i < text.len() ==> is_plain(#[trigger] text[i])
}

/// `text` between two quotes.
pub open spec fn quoted(text: Seq<char>) -> Seq<char> {
    seq!['"'] + text + seq!['"']
}

/// Encodes `text` as a JSON string literal.
///
/// Trusted: the body builds a `serde_json::Value::String` and formats it with
/// the `Display` impl of `serde_json::Value`, which writes the compact form.
/// The contract claims that the outcome depends on `text` alone, and that a
/// text without quotes, backslashes and control characters comes back
/// unchanged between two quotes; `serde_json` escapes no other character.
#[verifier::external_body]
pub(crate) fn json_string(text: &str) -> (encoded: String)
    ensures
        encoded@ == json_string_text(text@),
        is_plain_text(text@) ==> encoded@ == quoted(text@),
{
    serde_json::Value::String(text.to_owned()).to_string()
}

/// The character of the decimal digit `d`.
pub open spec fn digit_char(d: int) -> char {
    if d == 0 {
        '0'
    } else if d == 1 {
        '1'
    } else if d == 2 {
        '2'
    } else if d == 3 {
        '3'
    } else if d == 4 {
        '4'
    } else if d == 5 {
        '5'
    } else if d == 6 {
        '6'
    } else if d == 7 {
        '7'
    } else if d == 8 {
        '8'
    } else {
        '9'
    }
}

/// The decimal digits of `n`, most significant first, without leading zeros.
pub open spec fn digits_text(n: nat) -> Seq<char>
    decreases n,
{
    if n < 10 {
        seq![digit_char(n as int)]
    } else {
        digits_text(n / 10).push(digit_char((n % 10) as int))
    }
}

/// The decimal text of `value`: a minus sign for a negative number, then the
/// digits of its magnitude.
pub open spec fn decimal_text(value: int) -> Seq<char> {
    if value < 0 {
        seq!['-'] + digits_text((-value) as nat)
    } else {
        digits_text(value as nat)
    }
}

fn digit_str(d: u64) -> (text: &'static str)
    requires
        d < 10,
    ensures
        text@ == seq![digit_char(d as int)],
{
    proof {
        reveal_strlit("0");
        reveal_strlit("1");
        reveal_strlit("2");
        reveal_strlit("3");
        reveal_strlit("4");
        reveal_strlit("5");
        reveal_strlit("6");
        reveal_strlit("7");
        reveal_strlit("8");
        reveal_strlit("9");
    }
    let text = if d == 0 {
        "0"
    } else if d == 1 {
        "1"
    } else if d == 2 {
        "2"
    } else if d == 3 {
        "3"
    } else if d == 4 {
        "4"
    } else if d == 5 {
        "5"
    } else if d == 6 {
        "6"
    } else if d == 7 {
        "7"
    } else if d == 8 {
        "8"
    } else {
        "9"
    };
    text
}

fn push_digits(out: &mut String, n: u64)
    ensures
        final(out)@ == old(out)@ + digits_text(n as nat),
    decreases n,
{
    if n >= 10 {
        push_digits(out, n / 10);
    }
    out.append(digit_str(n % 10));
}

/// Writes `value` in decimal.
pub fn decimal(value: i64) -> (text: String)
    ensures
        text@ == decimal_text(value as int),
{
    let mut out = String::new();
    if value < 0 {
        proof {
            reveal_strlit("-");
        }
        out.append("-");
        let magnitude: u64 = if value == i64::MIN {
            9223372036854775808u64
        } else {
            (-value) as u64
        };
        push_digits(&mut out, magnitude);
    } else {
        push_digits(&mut out, value as u64);
    }
    out
}

/// The object with the one member `message`, given the encoded message.
pub open spec fn message_object_text(message: Seq<char>) -> Seq<char> {
    "{\"message\":"@ + message + "}"@
}

/// Writes the object with the one member `message`. `message` is the member's
/// value as JSON text.
pub fn message_object(message: &str) -> (text: String)
    ensures
        text@ == message_object_text(message@),
{
    let mut out = String::from_str("{\"message\":");
    out.append(message);
    out.append("}");
    out
}

/// The object of one user, given its id and its encoded name and email.
pub open spec fn user_object_text(id: int, name: Seq<char>, email: Seq<char>) -> Seq<char> {
    "{\"id\":"@ + decimal_text(id) + ",\"name\":"@ + name + ",\"email\":"@ + email + "}"@
}

/// Writes the object of one user. `name` and `email` are the members' values
/// as JSON text.
pub fn user_object(id: i64, name: &str, email: &str) -> (text: String)
    ensures
        text@ == user_object_text(id as int, name@, email@),
{
    let mut out = String::from_str("{\"id\":");
    let number = decimal(id);
    out.append(number.as_str());
    out.append(",\"name\":");
    out.append(name);
    out.append(",\"email\":");
    out.append(email);
    out.append("}");
    out
}

/// The items one after the other, with a comma between two neighbours.
pub open spec fn joined_text(items: Seq<Seq<char>>) -> Seq<char>
    decreases items.len(),
{
    if items.len() == 0 {
        Seq::empty()
    } else if items.len() == 1 {
        items[0]
    } else {
        joined_text(items.drop_last()) + ","@ + items.last()
    }
}

/// The object with the one member `users`, an array of the given items.
pub open spec fn users_object_text(items: Seq<Seq<char>>) -> Seq<char> {
    "{\"users\":["@ + joined_text(items) + "]}"@
}

/// The texts that a sequence of strings holds.
pub open spec fn texts(items: Seq<String>) -> Seq<Seq<char>> {
    items.map_values(|item: String| item@)
}

/// Writes the object with the one member `users`. Each item is one element of
/// the array as JSON text.
pub fn users_object(items: &Vec<String>) -> (text: String)
    ensures
        text@ == users_object_text(texts(items@)),
{
    let mut out = String::from_str("{\"users\":[");
    let ghost head = out@;
    let mut i: usize = 0;
    while i < items.len()
        invariant
            i <= items.len(),
            head == "{\"users\":["@,
            out@ == head + joined_text(texts(items@).take(i as int)),
        decreases items.len() - i,
    {
        let ghost before = texts(items@).take(i as int);
        let ghost after = texts(items@).take(i + 1);
        proof {
            assert(after.drop_last() =~= before);
        }
        if i > 0 {
            out.append(",");
        }
        out.append(items[i].as_str());
        i = i + 1;
    }
    assert(texts(items@).take(i as int) =~= texts(items@));
    out.append("]}");
    out
}

/// Without items the array is written as `[]`.
pub proof fn lemma_users_object_of_none(items: Seq<Seq<char>>)
    requires
        items.len() == 0,
    ensures
        users_object_text(items) == "{\"users\":[]}"@,
{
    reveal_strlit("{\"users\":[");
    reveal_strlit("]}");
    reveal_strlit("{\"users\":[]}");
}

} // verus!
