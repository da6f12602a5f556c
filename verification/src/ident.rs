//! Identifiers and instants: where they come from and how they are written.
//!
//! An identifier is the 128-bit number of a UUID; an instant is a count of
//! microseconds since the Unix epoch, in UTC.

use vstd::prelude::*;
use vstd::string::*;

verus! {

/// The hexadecimal digit number `k` of an identifier, counted from the
/// most significant one; there are 32.
pub open spec fn hex_digit(id: u128, k: nat) -> u128 {
    (id >> ((4 * (31 - k)) as u128)) & 0xf
}

/// The lower-case character of a hexadecimal digit.
pub open spec fn hex_char(digit: u128) -> char {
    if digit == 0 {
        '0'
    } else if digit == 1 {
        '1'
    } else if digit == 2 {
        '2'
    } else if digit == 3 {
        '3'
    } else if digit == 4 {
        '4'
    } else if digit == 5 {
        '5'
    } else if digit == 6 {
        '6'
    } else if digit == 7 {
        '7'
    } else if digit == 8 {
        '8'
    } else if digit == 9 {
        '9'
    } else if digit == 10 {
        'a'
    } else if digit == 11 {
        'b'
    } else if digit == 12 {
        'c'
    } else if digit == 13 {
        'd'
    } else if digit == 14 {
        'e'
    } else {
        'f'
    }
}

/// Whether a hyphen stands before the hexadecimal digit number `k`.
pub open spec fn hyphen_before(k: nat) -> bool {
    k == 8 || k == 12 || k == 16 || k == 20
}

/// The text of the first `n` hexadecimal digits of an identifier, with the
/// hyphens among them.
pub open spec fn uuid_prefix(id: u128, n: nat) -> Seq<char>
    decreases n,
{
    if n == 0 {
        Seq::empty()
    } else {
        let k = (n - 1) as nat;
        let before = if hyphen_before(k) {
            uuid_prefix(id, k).push('-')
        } else {
            uuid_prefix(id, k)
        };
        before.push(hex_char(hex_digit(id, k)))
    }
}

/// The hyphenated lower-case text of the UUID with the given number: its 32
/// hexadecimal digits in groups of 8, 4, 4, 4 and 12.
pub open spec fn uuid_text(id: u128) -> Seq<char> {
    uuid_prefix(id, 32)
}

/// The RFC 3339 text of an instant, in UTC with a `Z`; `None` where the
/// calendar cannot hold the instant.
pub uninterp spec fn instant_text(micros: i64) -> Option<Seq<char>>;

/// Draws a random version-4 UUID with `uuid::Uuid::new_v4` and gives its
/// number. Nothing is promised of the number.
#[verifier::external_body]
pub(crate) fn fresh_id() -> u128 {
    uuid::Uuid::new_v4().as_u128()
}

/// Reads the clock with `chrono::Utc::now` and gives the instant in
/// microseconds. Nothing is promised of the instant.
#[verifier::external_body]
pub(crate) fn now_micros() -> i64 {
    chrono::Utc::now().timestamp_micros()
}

fn hex_str(digit: u128) -> (r: &'static str)
    ensures
        r@ == seq![hex_char(digit)],
{
    proof {
        reveal_strlit("0");
        reveal_strlit("1");
        reveal_strlit("2");
        reveal_strlit("3");
        reveal_strlit("4");
        reveal_strlit("5");
        reveal_strlit("6");
        reveal_strlit("7");
        reveal_strlit("8");
        reveal_strlit("9");
        reveal_strlit("a");
        reveal_strlit("b");
        reveal_strlit("c");
        reveal_strlit("d");
        reveal_strlit("e");
        reveal_strlit("f");
    }
    let r = if digit == 0 {
        "0"
    } else if digit == 1 {
        "1"
    } else if digit == 2 {
        "2"
    } else if digit == 3 {
        "3"
    } else if digit == 4 {
        "4"
    } else if digit == 5 {
        "5"
    } else if digit == 6 {
        "6"
    } else if digit == 7 {
        "7"
    } else if digit == 8 {
        "8"
    } else if digit == 9 {
        "9"
    } else if digit == 10 {
        "a"
    } else if digit == 11 {
        "b"
    } else if digit == 12 {
        "c"
    } else if digit == 13 {
        "d"
    } else if digit == 14 {
        "e"
    } else {
        "f"
    };
    assert(r@ =~= seq![hex_char(digit)]);
    r
}

/// The hyphenated lower-case text of the UUID with the given number.
pub fn render_uuid(id: u128) -> (r: String)
    ensures
        r@ == uuid_text(id),
{
    let mut text = String::new();
    let mut k: u32 = 0;
    assert(text@ =~= uuid_prefix(id, 0));
    while k < 32
        invariant
            k <= 32,
            text@ == uuid_prefix(id, k as nat),
        decreases 32 - k,
    {
        let ghost before = text@;
        if k == 8 || k == 12 || k == 16 || k == 20 {
            proof {
                reveal_strlit("-");
            }
            text.append("-");
            assert(text@ =~= before.push('-'));
        }
        let ghost with_hyphen = text@;
        let shift: u128 = (4 * (31 - k)) as u128;
        let digit: u128 = (id >> shift) & 0xf;
        text.append(hex_str(digit));
        assert(text@ =~= with_hyphen.push(hex_char(hex_digit(id, k as nat))));
        k += 1;
    }
    text
}

/// Builds the instant with `chrono::DateTime::from_timestamp_micros` and
/// renders it with `to_rfc3339_opts`, with as many fractional digits as the
/// instant needs and `Z` for UTC.
#[verifier::external_body]
pub(crate) fn render_instant(micros: i64) -> (r: Option<String>)
    ensures
        match r {
            Some(text) => instant_text(micros) == Some(text@),
            None => instant_text(micros) is None,
        },
{
    chrono::DateTime::from_timestamp_micros(micros)
        .map(|t| t.to_rfc3339_opts(chrono::SecondsFormat::AutoSi, true))
}

} // verus!
