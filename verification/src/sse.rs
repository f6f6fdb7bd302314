//! Server-sent-event framing.
//!
//! Each mutation notification is serialized as a JSON object with the
//! affected id and the mutation kind (keys in alphabetical order, the kind as
//! its variant name), wrapped in a `<div>` so the frame drops straight into a
//! client-side swap, and sent as one `data:` frame. A fixed keep-alive text is
//! sent on a fixed interval while the stream is idle.

use vstd::prelude::*;
use crate::bus::RecvOutcome;
use crate::plugin::{MutationKind, PluginUpdate};

verus! {

/// Seconds between keep-alive frames on an idle stream.
pub const KEEP_ALIVE_INTERVAL_SECS: u64 = 600;

/// The decimal digits of `n`, most significant first.
pub open spec fn dec_digits(n: nat) -> Seq<char>
    decreases n,
{
    if n < 10 {
        seq![digit_char(n)]
    } else {
        dec_digits(n / 10).push(digit_char(n % 10))
    }
}

/// The usual decimal rendering of an integer: a minus sign for negative
/// values, then the digits.
pub open spec fn dec_number(n: int) -> Seq<char> {
    if n < 0 {
        seq!['-'] + dec_digits((-n) as nat)
    } else {
        dec_digits(n as nat)
    }
}

/// The character for one decimal digit.
pub open spec fn digit_char(d: nat) -> char {
    if d == 0 {
        '0'
    } else if d == 1 {
        '1'
    } else if d == 2 {
        '2'
    } else if d == 3 {
        '3'
    } else if d == 4 {
        '4'
    } else if d == 5 {
        '5'
    } else if d == 6 {
        '6'
    } else if d == 7 {
        '7'
    } else if d == 8 {
        '8'
    } else {
        '9'
    }
}

/// The serialized name of a mutation kind.
pub open spec fn kind_label(k: MutationKind) -> Seq<char> {
    match k {
        MutationKind::Create => "Create"@,
        MutationKind::Delete => "Delete"@,
    }
}

/// The JSON object for a notification, keys in alphabetical order.
pub open spec fn update_json(u: PluginUpdate) -> Seq<char> {
    "{\"id\":"@ + dec_number(u.id as int) + ",\"mutation_kind\":\""@ + kind_label(u.mutation_kind)
        + "\"}"@
}

/// The payload of one data frame: the JSON object wrapped in a `<div>`.
pub open spec fn frame_text(u: PluginUpdate) -> Seq<char> {
    "<div>"@ + update_json(u) + "</div>"@
}

/// Appends the decimal digits of `n`, most significant first.
fn push_decimal(s: &mut String, n: u32)
    ensures
        final(s)@ == old(s)@ + dec_digits(n as nat),
    decreases n,
{
    if n >= 10 {
        push_decimal(s, n / 10);
    }
    let d = n % 10;
    let piece = match d {
        0 => "0",
        1 => "1",
        2 => "2",
        3 => "3",
        4 => "4",
        5 => "5",
        6 => "6",
        7 => "7",
        8 => "8",
        _ => "9",
    };
    proof {
        reveal_strlit("0");
        reveal_strlit("1");
        reveal_strlit("2");
        reveal_strlit("3");
        reveal_strlit("4");
        reveal_strlit("5");
        reveal_strlit("6");
        reveal_strlit("7");
        reveal_strlit("8");
        reveal_strlit("9");
        assert(piece@ =~= seq![digit_char((n % 10) as nat)]);
        if n >= 10 {
            assert(dec_digits(n as nat) == dec_digits((n as nat) / 10).push(
                digit_char((n as nat) % 10),
            ));
        }
    }
    s.append(piece);
    proof {
        if n < 10 {
            assert(old(s)@ + seq![digit_char(n as nat)] =~= old(s)@ + dec_digits(n as nat));
        } else {
            assert((old(s)@ + dec_digits((n as nat) / 10)) + seq![digit_char((n as nat) % 10)]
                =~= old(s)@ + dec_digits(n as nat));
        }
    }
}

/// The decimal rendering of an id, minus sign included.
pub fn render_number(n: i32) -> (r: String)
    ensures
        r@ == dec_number(n as int),
{
    let mut s = String::new();
    if n < 0 {
        s.append("-");
        let magnitude: u32 = (-(n as i64)) as u32;
        proof {
            reveal_strlit("-");
            assert("-"@ =~= seq!['-']);
        }
        push_decimal(&mut s, magnitude);
        proof {
            assert((Seq::<char>::empty() + seq!['-']) + dec_digits(magnitude as nat) =~= seq!['-']
                + dec_digits((-(n as int)) as nat));
        }
    } else {
        push_decimal(&mut s, n as u32);
        proof {
            assert(Seq::<char>::empty() + dec_digits(n as nat) =~= dec_digits(n as nat));
        }
    }
    s
}

/// The JSON object for one notification.
pub fn render_update_json(u: &PluginUpdate) -> (r: String)
    ensures
        r@ == update_json(*u),
{
    let mut s = String::new();
    s.append("{\"id\":");
    let number = render_number(u.id);
    s.append(number.as_str());
    s.append(",\"mutation_kind\":\"");
    let label = match u.mutation_kind {
        MutationKind::Create => "Create",
        MutationKind::Delete => "Delete",
    };
    s.append(label);
    s.append("\"}");
    proof {
        assert(s@ =~= update_json(*u));
    }
    s
}

/// The full data-frame payload for one notification.
pub fn render_frame(u: &PluginUpdate) -> (r: String)
    ensures
        r@ == frame_text(*u),
{
    let mut s = String::new();
    s.append("<div>");
    let json = render_update_json(u);
    s.append(json.as_str());
    s.append("</div>");
    proof {
        assert(s@ =~= frame_text(*u));
    }
    s
}

/// What a stream does next. `Frame` carries a payload to flush to the
/// client; `Idle` waits for the next notification or keep-alive tick;
/// `Terminate` closes this one connection.
pub enum SseAction {
    Frame(String),
    Idle,
    Terminate,
}

/// The streaming decision for one poll of the subscription: a received
/// notification is framed and sent; an empty buffer means keep waiting; a
/// lagged subscriber has lost notifications, which is fatal to this stream
/// (deliberately: a client is cut off rather than silently handed a sequence
/// with a gap).
pub fn sse_step(o: RecvOutcome) -> (a: SseAction)
    ensures
        o matches RecvOutcome::Event(u) ==> a matches SseAction::Frame(f) && f@ == frame_text(u),
        o is Empty ==> a is Idle,
        o is Lagged ==> a is Terminate,
{
    match o {
        RecvOutcome::Event(u) => SseAction::Frame(render_frame(&u)),
        RecvOutcome::Empty => SseAction::Idle,
        RecvOutcome::Lagged => SseAction::Terminate,
    }
}

/// The fixed keep-alive payload.
pub fn keep_alive_text() -> (r: &'static str)
    ensures
        r@ == "keep-alive-text"@,
{
    "keep-alive-text"
}

} // verus!
