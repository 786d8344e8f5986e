use vstd::prelude::*;
use vstd::string::StringExecFns;

verus! {

/// The character that writes the digit `d`.
pub open spec fn digit_char(d: nat) -> char {
    if d == 0 {
        '0'
    } else if d == 1 {
        '1'
    } else if d == 2 {
        '2'
    } else if d == 3 {
        '3'
    } else if d == 4 {
        '4'
    } else if d == 5 {
        '5'
    } else if d == 6 {
        '6'
    } else if d == 7 {
        '7'
    } else if d == 8 {
        '8'
    } else {
        '9'
    }
}

/// The decimal numeral of `n`: no sign, no leading zero, `"0"` for zero.
pub open spec fn decimal_digits(n: nat) -> Seq<char>
    decreases n,
{
    if n < 10 {
        seq![digit_char(n)]
    } else {
        decimal_digits(n / 10).push(digit_char(n % 10))
    }
}

/// The text under which a node is reached: its address, a colon, and its port
/// in decimal.
pub open spec fn uri_text(address: Seq<char>, port: u32) -> Seq<char> {
    address + seq![':'] + decimal_digits(port as nat)
}

/// What an `Endpoint` stands for.
pub struct EndpointView {
    pub address: Seq<char>,
    pub port: u32,
}

/// One reachable node of a cluster: its address and its port. It owns its
/// address and keeps no reference to memory of the client library.
#[derive(Debug, PartialEq, Eq)]
pub struct Endpoint {
    address: String,
    port: u32,
}

impl View for Endpoint {
    type V = EndpointView;

    closed spec fn view(&self) -> EndpointView {
        EndpointView { address: self.address@, port: self.port }
    }
}

fn digit_text(d: u32) -> (r: &'static str)
    requires
        d < 10,
    ensures
        r@ == seq![digit_char(d as nat)],
{
    proof {
        reveal_strlit("0");
        reveal_strlit("1");
        reveal_strlit("2");
        reveal_strlit("3");
        reveal_strlit("4");
        reveal_strlit("5");
        reveal_strlit("6");
        reveal_strlit("7");
        reveal_strlit("8");
        reveal_strlit("9");
    }
    let r = if d == 0 {
        "0"
    } else if d == 1 {
        "1"
    } else if d == 2 {
        "2"
    } else if d == 3 {
        "3"
    } else if d == 4 {
        "4"
    } else if d == 5 {
        "5"
    } else if d == 6 {
        "6"
    } else if d == 7 {
        "7"
    } else if d == 8 {
        "8"
    } else {
        "9"
    };
    assert(r@ =~= seq![digit_char(d as nat)]);
    r
}

/// Writes `n` in decimal.
pub fn decimal(n: u32) -> (r: String)
    ensures
        r@ == decimal_digits(n as nat),
    decreases n,
{
    if n < 10 {
        String::from_str(digit_text(n))
    } else {
        let mut text = decimal(n / 10);
        text.append(digit_text(n % 10));
        assert(text@ =~= decimal_digits(n as nat));
        text
    }
}

impl Endpoint {
    pub fn new(address: String, port: u32) -> (r: Endpoint)
        ensures
            r@ == (EndpointView { address: address@, port }),
    {
        Endpoint { address, port }
    }

    /// The address, a colon, and the port in decimal.
    pub fn uri(&self) -> (r: String)
        ensures
            r@ == uri_text(self@.address, self@.port),
    {
        proof {
            reveal_strlit(":");
        }
        let mut text = String::from_str(self.address.as_str());
        text.append(":");
        let port = decimal(self.port);
        text.append(port.as_str());
        assert(":"@ =~= seq![':']);
        text
    }

    pub fn address(&self) -> (r: &str)
        ensures
            r@ == self@.address,
    {
        self.address.as_str()
    }

    pub fn port(&self) -> (r: u32)
        ensures
            r == self@.port,
    {
        self.port
    }
}

} // verus!
