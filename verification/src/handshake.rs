//! The registration handshake sent once per successful endpoint connection:
//! one bind message carrying the configured numeric identifier, then eight
//! fixed registration messages, in a fixed order.

use vstd::prelude::*;

use vstd::string::StringExecFns;

verus! {

/// The decimal digit character of one value below ten.
pub open spec fn spec_digit(d: nat) -> char {
    if d == 0 { '0' }
    else if d == 1 { '1' }
    else if d == 2 { '2' }
    else if d == 3 { '3' }
    else if d == 4 { '4' }
    else if d == 5 { '5' }
    else if d == 6 { '6' }
    else if d == 7 { '7' }
    else if d == 8 { '8' }
    else { '9' }
}

/// The decimal rendering of a number, most significant digit first, with no
/// leading zero except for the number zero itself.
pub open spec fn spec_decimal(n: nat) -> Seq<char>
    decreases n,
{
    if n < 10 {
        seq![spec_digit(n)]
    } else {
        spec_decimal(n / 10) + seq![spec_digit(n % 10)]
    }
}

/// The bind message of one identifier.
pub open spec fn spec_bind_message(bind_id: u32) -> Seq<char> {
    "{\"address\":"@ + spec_decimal(bind_id as nat) + ",\"method\":\"bind\"}"@
}

/// The eight registration keys, in the order they are registered.
pub open spec fn spec_registration_key(i: int) -> Seq<char> {
    if i == 0 { "auto.report"@ }
    else if i == 1 { "auto.forward"@ }
    else if i == 2 { "lanbox.event"@ }
    else if i == 3 { "auto.ifttt"@ }
    else if i == 4 { "auto.cross.ifttt"@ }
    else if i == 5 { "matter.control"@ }
    else if i == 6 { "matter.event"@ }
    else { "mtbr.control"@ }
}

/// The registration message of one key.
pub open spec fn spec_registration_message(i: int) -> Seq<char> {
    "{\"key\":\""@ + spec_registration_key(i) + "\",\"method\":\"register\"}"@
}

/// The whole handshake of one identifier: the bind message, then the eight
/// registration messages in order.
pub open spec fn spec_handshake(bind_id: u32) -> Seq<Seq<char>> {
    Seq::new(9, |i: int| if i == 0 { spec_bind_message(bind_id) } else { spec_registration_message(i - 1) })
}

fn digit_str(d: u32) -> (r: &'static str)
    requires
        d < 10,
    ensures
        r@ == seq![spec_digit(d as nat)],
{
    proof {
        reveal_strlit("0");
        reveal_strlit("1");
        reveal_strlit("2");
        reveal_strlit("3");
        reveal_strlit("4");
        reveal_strlit("5");
        reveal_strlit("6");
        reveal_strlit("7");
        reveal_strlit("8");
        reveal_strlit("9");
    }
    let r = match d {
        0 => "0",
        1 => "1",
        2 => "2",
        3 => "3",
        4 => "4",
        5 => "5",
        6 => "6",
        7 => "7",
        8 => "8",
        _ => "9",
    };
    proof {
        assert(r@ =~= seq![spec_digit(d as nat)]);
    }
    r
}

/// The decimal rendering of a number, as written into the bind message.
pub fn decimal_string(n: u32) -> (r: String)
    ensures
        r@ == spec_decimal(n as nat),
    decreases n,
{
    if n < 10 {
        String::from_str(digit_str(n))
    } else {
        let mut s = decimal_string(n / 10);
        s.append(digit_str(n % 10));
        s
    }
}

/// The bind message sent first on every fresh connection, carrying the
/// configured numeric identifier.
pub fn bind_message(bind_id: u32) -> (r: String)
    ensures
        r@ == spec_bind_message(bind_id),
{
    let mut s = String::from_str("{\"address\":");
    let digits = decimal_string(bind_id);
    s.append(digits.as_str());
    s.append(",\"method\":\"bind\"}");
    s
}

/// The eight fixed registration messages, in the order they are sent.
pub fn registration_messages() -> (r: Vec<&'static str>)
    ensures
        r@.len() == 8,
        forall|i: int| 0 <= i < 8 ==> #[trigger] r@[i]@ == spec_registration_message(i),
{
    let mut v: Vec<&'static str> = Vec::new();
    v.push("{\"key\":\"auto.report\",\"method\":\"register\"}");
    v.push("{\"key\":\"auto.forward\",\"method\":\"register\"}");
    v.push("{\"key\":\"lanbox.event\",\"method\":\"register\"}");
    v.push("{\"key\":\"auto.ifttt\",\"method\":\"register\"}");
    v.push("{\"key\":\"auto.cross.ifttt\",\"method\":\"register\"}");
    v.push("{\"key\":\"matter.control\",\"method\":\"register\"}");
    v.push("{\"key\":\"matter.event\",\"method\":\"register\"}");
    v.push("{\"key\":\"mtbr.control\",\"method\":\"register\"}");
    proof {
        lemma_registration_literals(v@);
    }
    v
}

/// Each pushed literal is the registration message of its position.
proof fn lemma_registration_literals(s: Seq<&'static str>)
    requires
        s.len() == 8,
        s[0]@ == "{\"key\":\"auto.report\",\"method\":\"register\"}"@,
        s[1]@ == "{\"key\":\"auto.forward\",\"method\":\"register\"}"@,
        s[2]@ == "{\"key\":\"lanbox.event\",\"method\":\"register\"}"@,
        s[3]@ == "{\"key\":\"auto.ifttt\",\"method\":\"register\"}"@,
        s[4]@ == "{\"key\":\"auto.cross.ifttt\",\"method\":\"register\"}"@,
        s[5]@ == "{\"key\":\"matter.control\",\"method\":\"register\"}"@,
        s[6]@ == "{\"key\":\"matter.event\",\"method\":\"register\"}"@,
        s[7]@ == "{\"key\":\"mtbr.control\",\"method\":\"register\"}"@,
    ensures
        forall|i: int| 0 <= i < 8 ==> #[trigger] s[i]@ == spec_registration_message(i),
{
    reveal_strlit("{\"key\":\"auto.report\",\"method\":\"register\"}");
    reveal_strlit("{\"key\":\"auto.forward\",\"method\":\"register\"}");
    reveal_strlit("{\"key\":\"lanbox.event\",\"method\":\"register\"}");
    reveal_strlit("{\"key\":\"auto.ifttt\",\"method\":\"register\"}");
    reveal_strlit("{\"key\":\"auto.cross.ifttt\",\"method\":\"register\"}");
    reveal_strlit("{\"key\":\"matter.control\",\"method\":\"register\"}");
    reveal_strlit("{\"key\":\"matter.event\",\"method\":\"register\"}");
    reveal_strlit("{\"key\":\"mtbr.control\",\"method\":\"register\"}");
    reveal_strlit("{\"key\":\"");
    reveal_strlit("\",\"method\":\"register\"}");
    reveal_strlit("auto.report");
    reveal_strlit("auto.forward");
    reveal_strlit("lanbox.event");
    reveal_strlit("auto.ifttt");
    reveal_strlit("auto.cross.ifttt");
    reveal_strlit("matter.control");
    reveal_strlit("matter.event");
    reveal_strlit("mtbr.control");
    assert(s[0]@ =~= spec_registration_message(0));
    assert(s[1]@ =~= spec_registration_message(1));
    assert(s[2]@ =~= spec_registration_message(2));
    assert(s[3]@ =~= spec_registration_message(3));
    assert(s[4]@ =~= spec_registration_message(4));
    assert(s[5]@ =~= spec_registration_message(5));
    assert(s[6]@ =~= spec_registration_message(6));
    assert(s[7]@ =~= spec_registration_message(7));
}

/// The whole handshake of one identifier: the bind message, then the eight
/// registration messages, in the order they must be sent.
pub fn handshake_messages(bind_id: u32) -> (r: Vec<String>)
    ensures
        r@.len() == 9,
        forall|i: int| 0 <= i < 9 ==> #[trigger] r@[i]@ == spec_handshake(bind_id)[i],
{
    let mut v: Vec<String> = Vec::new();
    v.push(bind_message(bind_id));
    let regs = registration_messages();
    let mut i: usize = 0;
    while i < regs.len()
        invariant
            regs@.len() == 8,
            forall|k: int| 0 <= k < 8 ==> #[trigger] regs@[k]@ == spec_registration_message(k),
            i <= 8,
            v@.len() == i + 1,
            v@[0]@ == spec_bind_message(bind_id),
            forall|k: int| 1 <= k < v@.len() ==> #[trigger] v@[k]@ == spec_registration_message(k - 1),
        decreases regs@.len() - i,
    {
        v.push(String::from_str(regs[i]));
        i += 1;
    }
    v
}

} // verus!
