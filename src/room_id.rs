//! Room ids: five decimal digits without a leading zero, i.e. the numbers
//! 10000 through 99999 written in decimal.
use vstd::prelude::*;

verus! {

/// The smallest room number.
pub const MIN_ROOM_NUMBER: u32 = 10000;

/// The largest room number.
pub const MAX_ROOM_NUMBER: u32 = 99999;

pub open spec fn is_room_number(n: int) -> bool {
    MIN_ROOM_NUMBER <= n <= MAX_ROOM_NUMBER
}

/// The character of decimal digit `d` (for `0 <= d < 10`).
pub open spec fn digit_char(d: int) -> char {
    if d == 0 { '0' }
    else if d == 1 { '1' }
    else if d == 2 { '2' }
    else if d == 3 { '3' }
    else if d == 4 { '4' }
    else if d == 5 { '5' }
    else if d == 6 { '6' }
    else if d == 7 { '7' }
    else if d == 8 { '8' }
    else { '9' }
}

/// The digit that character `c` stands for, if it is a decimal digit.
pub open spec fn digit_value(c: char) -> Option<int> {
    if c == '0' { Some(0) }
    else if c == '1' { Some(1) }
    else if c == '2' { Some(2) }
    else if c == '3' { Some(3) }
    else if c == '4' { Some(4) }
    else if c == '5' { Some(5) }
    else if c == '6' { Some(6) }
    else if c == '7' { Some(7) }
    else if c == '8' { Some(8) }
    else if c == '9' { Some(9) }
    else { None }
}

/// The decimal text of a room number: five digits, most significant first.
pub open spec fn room_id_text(n: int) -> Seq<char> {
    seq![
        digit_char(n / 10000),
        digit_char((n / 1000) % 10),
        digit_char((n / 100) % 10),
        digit_char((n / 10) % 10),
        digit_char(n % 10),
    ]
}

/// Whether `s` has the shape of a room id: five decimal digits, the first not zero.
pub open spec fn is_room_id_text(s: Seq<char>) -> bool {
    &&& s.len() == 5
    &&& forall|i: int| 0 <= i < 5 ==> (#[trigger] digit_value(s[i])).is_some()
    &&& s[0] != '0'
}

/// The room number that a text stands for, if it has the shape of a room id.
pub open spec fn parse_room_id_spec(s: Seq<char>) -> Option<u32> {
    if is_room_id_text(s) {
        Some((10000 * digit_value(s[0]).unwrap() + 1000 * digit_value(s[1]).unwrap() + 100
            * digit_value(s[2]).unwrap() + 10 * digit_value(s[3]).unwrap() + digit_value(
            s[4],
        ).unwrap()) as u32)
    } else {
        None
    }
}

proof fn lemma_digit_round_trip(d: int)
    requires
        0 <= d < 10,
    ensures
        digit_value(digit_char(d)) == Some(d),
        d != 0 ==> digit_char(d) != '0',
{
}

/// Reading back the text of a room number gives that number.
pub proof fn lemma_room_id_round_trip(n: int)
    requires
        is_room_number(n),
    ensures
        is_room_id_text(room_id_text(n)),
        parse_room_id_spec(room_id_text(n)) == Some(n as u32),
{
    let s = room_id_text(n);
    let a = n / 10000;
    let b = (n / 1000) % 10;
    let c = (n / 100) % 10;
    let d = (n / 10) % 10;
    let e = n % 10;
    assert(1 <= a < 10 && 0 <= b < 10 && 0 <= c < 10 && 0 <= d < 10 && 0 <= e < 10);
    lemma_digit_round_trip(a);
    lemma_digit_round_trip(b);
    lemma_digit_round_trip(c);
    lemma_digit_round_trip(d);
    lemma_digit_round_trip(e);
    assert(10000 * a + 1000 * b + 100 * c + 10 * d + e == n) by (nonlinear_arith)
        requires
            a == n / 10000,
            b == (n / 1000) % 10,
            c == (n / 100) % 10,
            d == (n / 10) % 10,
            e == n % 10,
            10000 <= n <= 99999,
    ;
    assert forall|i: int| 0 <= i < 5 implies (#[trigger] digit_value(s[i])).is_some() by {}
}

/// Relies on String's `+` with a `&str`: the characters of both, in order.
#[verifier::external_body]
pub(crate) fn append_text(a: String, b: &str) -> (r: String)
    ensures
        r@ == a@ + b@,
{
    a + b
}

/// The one-character text of decimal digit `d`.
fn digit_text(d: u32) -> (r: String)
    requires
        d < 10,
    ensures
        r@ == seq![digit_char(d as int)],
{
    let r = match d {
        0 => {
            proof {
                reveal_strlit("0");
            }
            "0".to_string()
        },
        1 => {
            proof {
                reveal_strlit("1");
            }
            "1".to_string()
        },
        2 => {
            proof {
                reveal_strlit("2");
            }
            "2".to_string()
        },
        3 => {
            proof {
                reveal_strlit("3");
            }
            "3".to_string()
        },
        4 => {
            proof {
                reveal_strlit("4");
            }
            "4".to_string()
        },
        5 => {
            proof {
                reveal_strlit("5");
            }
            "5".to_string()
        },
        6 => {
            proof {
                reveal_strlit("6");
            }
            "6".to_string()
        },
        7 => {
            proof {
                reveal_strlit("7");
            }
            "7".to_string()
        },
        8 => {
            proof {
                reveal_strlit("8");
            }
            "8".to_string()
        },
        9 => {
            proof {
                reveal_strlit("9");
            }
            "9".to_string()
        },
        _ => {
            proof {
                reveal_strlit("9");
            }
            "9".to_string()
        },
    };
    proof {
        assert(r@ =~= seq![digit_char(d as int)]);
    }
    r
}

/// The id text of a room number: its five decimal digits.
pub fn room_id_string(n: u32) -> (r: String)
    requires
        is_room_number(n as int),
    ensures
        r@ == room_id_text(n as int),
{
    let s = append_text(digit_text(n / 10000), digit_text((n / 1000) % 10).as_str());
    let s = append_text(s, digit_text((n / 100) % 10).as_str());
    let s = append_text(s, digit_text((n / 10) % 10).as_str());
    let s = append_text(s, digit_text(n % 10).as_str());
    proof {
        assert(s@ =~= room_id_text(n as int));
    }
    s
}

fn digit_of(c: char) -> (r: Option<u32>)
    ensures
        match digit_value(c) {
            Some(d) => r == Some(d as u32),
            None => r.is_none(),
        },
{
    match c {
        '0' => Some(0),
        '1' => Some(1),
        '2' => Some(2),
        '3' => Some(3),
        '4' => Some(4),
        '5' => Some(5),
        '6' => Some(6),
        '7' => Some(7),
        '8' => Some(8),
        '9' => Some(9),
        _ => None,
    }
}

/// Reads a room id sent by a client: the room number, or `None` where the
/// text is not five decimal digits with a non-zero first digit.
pub fn parse_room_id(s: &str) -> (r: Option<u32>)
    ensures
        r == parse_room_id_spec(s@),
        r matches Some(n) ==> is_room_number(n as int),
{
    let len = s.unicode_len();
    if len != 5 {
        return None;
    }
    let (d0, d1, d2, d3, d4) = match (
        digit_of(s.get_char(0)),
        digit_of(s.get_char(1)),
        digit_of(s.get_char(2)),
        digit_of(s.get_char(3)),
        digit_of(s.get_char(4)),
    ) {
        (Some(d0), Some(d1), Some(d2), Some(d3), Some(d4)) => (d0, d1, d2, d3, d4),
        _ => {
            return None;
        },
    };
    if d0 == 0 {
        return None;
    }
    proof {
        assert forall|k: int| 0 <= k < 5 implies (#[trigger] digit_value(s@[k])).is_some() by {
            if k == 0 {} else if k == 1 {} else if k == 2 {} else if k == 3 {} else {}
        }
    }
    Some(10000 * d0 + 1000 * d1 + 100 * d2 + 10 * d3 + d4)
}

} // verus!
