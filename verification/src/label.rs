//! Textual labels for open ports: the decimal port number, optionally
//! prefixed by the target and a colon.

use vstd::prelude::*;
use vstd::string::StringExecFns;

verus! {

/// The character for a single decimal digit.
pub open spec fn digit_char(d: int) -> char {
    if d == 0 {
        '0'
    } else if d == 1 {
        '1'
    } else if d == 2 {
        '2'
    } else if d == 3 {
        '3'
    } else if d == 4 {
        '4'
    } else if d == 5 {
        '5'
    } else if d == 6 {
        '6'
    } else if d == 7 {
        '7'
    } else if d == 8 {
        '8'
    } else {
        '9'
    }
}

/// The decimal representation of a non-negative integer, most significant
/// digit first, with no leading zeros (except for zero itself).
pub open spec fn decimal_chars(n: int) -> Seq<char>
    decreases n,
{
    if n < 10 {
        seq![digit_char(n)]
    } else {
        decimal_chars(n / 10).push(digit_char(n % 10))
    }
}

/// The label reported for an open port: `target:port` when the socket is
/// displayed, the bare decimal port otherwise.
pub open spec fn label_chars(target: Seq<char>, display_socket: bool, port: u16) -> Seq<char> {
    if display_socket {
        target + seq![':'] + decimal_chars(port as int)
    } else {
        decimal_chars(port as int)
    }
}

/// The one-character string for a single decimal digit.
fn digit_str(d: u16) -> (s: &'static str)
    requires
        d < 10,
    ensures
        s@ == seq![digit_char(d as int)],
{
    proof {
        reveal_strlit("0");
        reveal_strlit("1");
        reveal_strlit("2");
        reveal_strlit("3");
        reveal_strlit("4");
        reveal_strlit("5");
        reveal_strlit("6");
        reveal_strlit("7");
        reveal_strlit("8");
        reveal_strlit("9");
    }
    if d == 0 {
        "0"
    } else if d == 1 {
        "1"
    } else if d == 2 {
        "2"
    } else if d == 3 {
        "3"
    } else if d == 4 {
        "4"
    } else if d == 5 {
        "5"
    } else if d == 6 {
        "6"
    } else if d == 7 {
        "7"
    } else if d == 8 {
        "8"
    } else {
        "9"
    }
}

/// Render a port number in decimal.
pub fn decimal_string(n: u16) -> (s: String)
    ensures
        s@ == decimal_chars(n as int),
    decreases n,
{
    if n < 10 {
        String::from_str(digit_str(n))
    } else {
        let rest = decimal_string(n / 10);
        rest.concat(digit_str(n % 10))
    }
}

/// Render the label for an open port.
pub fn port_label(target: &str, display_socket: bool, port: u16) -> (s: String)
    ensures
        s@ == label_chars(target@, display_socket, port),
{
    if display_socket {
        proof {
            reveal_strlit(":");
        }
        let mut s = String::from_str(target);
        s.append(":");
        let digits = decimal_string(port);
        s.append(digits.as_str());
        assert(s@ =~= target@ + seq![':'] + decimal_chars(port as int));
        s
    } else {
        decimal_string(port)
    }
}

} // verus!
