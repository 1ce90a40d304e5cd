//! The settings of the service and their defaults.
//!
//! The caller reads the environment and hands over what it found; what is
//! not set takes its default here.
use vstd::prelude::*;
use vstd::string::*;

verus! {

/// The connection string that is used where none is set.
pub const DEFAULT_DATABASE_URL: &'static str = "sqlite:users.db";

/// The path of the database file that is used where none is set.
pub const DEFAULT_DATABASE_PATH: &'static str = "./users.db";

/// The port that is used where none is set.
pub const DEFAULT_PORT: &'static str = "9989";

/// The value of a setting: what was set, or the default.
pub fn value_or_default(current: Option<String>, default: &str) -> (value: String)
    ensures
        value@ == match current {
            Some(set) => set@,
            None => default@,
        },
{
    match current {
        Some(set) => set,
        None => String::from_str(default),
    }
}

/// Whether `c` is a decimal digit.
pub open spec fn is_digit(c: char) -> bool {
    '0' <= c <= '9'
}

/// Whether every character of `text` is a decimal digit.
pub open spec fn all_digits(text: Seq<char>) -> bool {
    forall|i: int| 0 <= i < text.len() ==> is_digit(#[trigger] text[i])
}

/// The number that one decimal digit writes.
pub open spec fn digit_value(c: char) -> nat {
    if is_digit(c) {
        (c as u32 - '0' as u32) as nat
    } else {
        0
    }
}

/// The number that a sequence of decimal digits writes.
pub open spec fn digits_value(digits: Seq<char>) -> nat
    decreases digits.len(),
{
    if digits.len() == 0 {
        0
    } else {
        digits_value(digits.drop_last()) * 10 + digit_value(digits.last())
    }
}

/// `text` without the plus sign that may stand at its head.
pub open spec fn unsigned_part(text: Seq<char>) -> Seq<char> {
    if text.len() > 0 && text[0] == '+' {
        text.skip(1)
    } else {
        text
    }
}

/// The port that `text` names: `text` is a plus sign or nothing, then one
/// decimal digit or more, and the number is at most 65535. Any other text
/// names no port.
pub open spec fn port_of(text: Seq<char>) -> Option<int> {
    let digits = unsigned_part(text);
    if digits.len() > 0 && all_digits(digits) && digits_value(digits) <= 65535 {
        Some(digits_value(digits) as int)
    } else {
        None
    }
}

/// Reads a port number.
pub fn parse_port(text: &str) -> (port: Option<u16>)
    ensures
        port_of(text@) == match port {
            Some(number) => Some(number as int),
            None => None,
        },
{
    // The number read so far, or 65536 once it is beyond every port.
    let mut value: u32 = 0;
    let mut valid = true;
    let mut at_head = true;
    let mut any_digit = false;
    for c in iter: text.chars()
        invariant
            iter.seq() == text@,
            at_head <==> iter.index() == 0,
            any_digit <==> unsigned_part(text@.take(iter.index())).len() > 0,
            valid <==> all_digits(unsigned_part(text@.take(iter.index()))),
            valid ==> value <= 65536,
            valid && digits_value(unsigned_part(text@.take(iter.index()))) <= 65535 ==> value
                == digits_value(unsigned_part(text@.take(iter.index()))),
            valid && digits_value(unsigned_part(text@.take(iter.index()))) > 65535 ==> value
                == 65536,
    {
        let ghost k = iter.index();
        let ghost before = unsigned_part(text@.take(k));
        let ghost after = unsigned_part(text@.take(k + 1));
        if !(at_head && c == '+') {
            // The character belongs to the number: it stands behind what was
            // read of it so far.
            assert(after =~= before.push(c));
            assert(after.drop_last() =~= before);
            any_digit = true;
            if valid && c >= '0' && c <= '9' {
                let digit: u32 = c as u32 - '0' as u32;
                let next: u32 = value * 10 + digit;
                value = if next > 65535 {
                    65536
                } else {
                    next
                };
                assert forall|i: int| 0 <= i < after.len() implies is_digit(
                    #[trigger] after[i],
                ) by {
                    if i < before.len() {
                        assert(after[i] == before[i]);
                    }
                }
            } else {
                proof {
                    if all_digits(after) {
                        assert(is_digit(after.last()));
                        assert forall|i: int| 0 <= i < before.len() implies is_digit(
                            #[trigger] before[i],
                        ) by {
                            assert(before[i] == after[i]);
                        }
                    }
                }
                valid = false;
            }
        }
        at_head = false;
    }
    assert(text@.take(text@.len() as int) =~= text@);
    if valid && any_digit && value <= 65535 {
        Some(value as u16)
    } else {
        None
    }
}

/// What the service is started with.
#[derive(Debug, Clone, PartialEq, Eq)]
pub struct Settings {
    /// The connection string of the store.
    pub database_url: String,
    /// The path of the file that is created before the store is opened.
    pub database_path: String,
    /// The port to listen on, as it was written.
    pub port: String,
}

impl Settings {
    /// The settings, given what the environment holds of each: a value that
    /// is set is taken as it is, one that is not takes its default.
    pub fn resolve(
        database_url: Option<String>,
        database_path: Option<String>,
        port: Option<String>,
    ) -> (settings: Settings)
        ensures
            settings.database_url@ == match database_url {
                Some(set) => set@,
                None => DEFAULT_DATABASE_URL@,
            },
            settings.database_path@ == match database_path {
                Some(set) => set@,
                None => DEFAULT_DATABASE_PATH@,
            },
            settings.port@ == match port {
                Some(set) => set@,
                None => DEFAULT_PORT@,
            },
    {
        Settings {
            database_url: value_or_default(database_url, DEFAULT_DATABASE_URL),
            database_path: value_or_default(database_path, DEFAULT_DATABASE_PATH),
            port: value_or_default(port, DEFAULT_PORT),
        }
    }

    /// The port to listen on, where the setting names one.
    pub fn port_number(&self) -> (port: Option<u16>)
        ensures
            port_of(self.port@) == match port {
                Some(number) => Some(number as int),
                None => None,
            },
    {
        parse_port(self.port.as_str())
    }
}

} // verus!
