//! Rendering of the structured command results this layer prints or
//! persists: decimal integers and the serialized delete accounting. The
//! output text is pinned down character by character.

use vstd::prelude::*;
use vstd::string::*;

use crate::task::DeleteResponse;

verus! {

/// The character for one decimal digit.
pub open spec fn spec_digit(d: nat) -> char {
    if d == 0 {
        '0'
    } else if d == 1 {
        '1'
    } else if d == 2 {
        '2'
    } else if d == 3 {
        '3'
    } else if d == 4 {
        '4'
    } else if d == 5 {
        '5'
    } else if d == 6 {
        '6'
    } else if d == 7 {
        '7'
    } else if d == 8 {
        '8'
    } else {
        '9'
    }
}

/// The decimal rendering of a non-negative integer, most significant digit
/// first, with no leading zeroes (a single `'0'` for zero).
pub open spec fn spec_decimal(n: nat) -> Seq<char>
    decreases n,
{
    if n < 10 {
        seq![spec_digit(n)]
    } else {
        spec_decimal(n / 10).push(spec_digit(n % 10))
    }
}

/// The decimal rendering of a signed integer: a leading `'-'` before the
/// magnitude when negative.
pub open spec fn spec_decimal_i32(n: int) -> Seq<char> {
    if n >= 0 {
        spec_decimal(n as nat)
    } else {
        seq!['-'] + spec_decimal((-n) as nat)
    }
}

fn digit_str(d: u32) -> (r: &'static str)
    requires
        d < 10,
    ensures
        r@ =~= seq![spec_digit(d as nat)],
{
    proof {
        reveal_strlit("0");
        reveal_strlit("1");
        reveal_strlit("2");
        reveal_strlit("3");
        reveal_strlit("4");
        reveal_strlit("5");
        reveal_strlit("6");
        reveal_strlit("7");
        reveal_strlit("8");
        reveal_strlit("9");
    }
    if d == 0 {
        "0"
    } else if d == 1 {
        "1"
    } else if d == 2 {
        "2"
    } else if d == 3 {
        "3"
    } else if d == 4 {
        "4"
    } else if d == 5 {
        "5"
    } else if d == 6 {
        "6"
    } else if d == 7 {
        "7"
    } else if d == 8 {
        "8"
    } else {
        "9"
    }
}

/// Append the decimal rendering of `n` to `out`.
fn push_decimal(n: u32, out: &mut String)
    ensures
        final(out)@ == old(out)@ + spec_decimal(n as nat),
    decreases n,
{
    if n < 10 {
        out.append(digit_str(n));
    } else {
        assert(n / 10 < n);
        push_decimal(n / 10, out);
        out.append(digit_str(n % 10));
        proof {
            assert(old(out)@ + spec_decimal((n / 10) as nat) + seq![spec_digit((n % 10) as nat)]
                =~= old(out)@ + spec_decimal(n as nat));
        }
    }
}

/// The decimal rendering of an unsigned integer.
pub fn render_u32(n: u32) -> (r: String)
    ensures
        r@ == spec_decimal(n as nat),
{
    let mut s = String::new();
    push_decimal(n, &mut s);
    proof {
        assert(Seq::<char>::empty() + spec_decimal(n as nat) =~= spec_decimal(n as nat));
    }
    s
}

/// The decimal rendering of a signed integer, as persisted to the pid file.
pub fn render_i32(n: i32) -> (r: String)
    ensures
        r@ == spec_decimal_i32(n as int),
{
    if n >= 0 {
        render_u32(n as u32)
    } else {
        let magnitude: u32 = if n == i32::MIN {
            2147483648u32
        } else {
            (-n) as u32
        };
        proof {
            reveal_strlit("-");
        }
        let mut s = String::from_str("-");
        push_decimal(magnitude, &mut s);
        proof {
            assert(s@ =~= seq!['-'] + spec_decimal((-(n as int)) as nat));
        }
        s
    }
}

/// The serialized form of the terminal accounting printed by the `delete`
/// command: a JSON object carrying exactly the exit status and the pid.
pub open spec fn spec_delete_json(resp: DeleteResponse) -> Seq<char> {
    "{\"exit_status\":"@ + spec_decimal(resp.exit_status as nat) + ",\"pid\":"@ + spec_decimal(
        resp.pid as nat,
    ) + "}"@
}

/// Render the serialized form of a delete accounting.
pub fn render_delete(resp: &DeleteResponse) -> (r: String)
    ensures
        r@ == spec_delete_json(*resp),
{
    let mut s = String::from_str("{\"exit_status\":");
    let a = render_u32(resp.exit_status);
    s.append(a.as_str());
    s.append(",\"pid\":");
    let b = render_u32(resp.pid);
    s.append(b.as_str());
    s.append("}");
    proof {
        assert(s@ =~= spec_delete_json(*resp));
    }
    s
}

} // verus!
