//! Decimal formatting and the socket addresses the website binds to.

use vstd::prelude::*;

verus! {

/// The ASCII digit for `d`, where `d < 10`.
pub open spec fn digit_char(d: nat) -> char {
    seq!['0', '1', '2', '3', '4', '5', '6', '7', '8', '9'][d as int]
}

/// The decimal representation of `n`, without leading zeros.
pub open spec fn decimal(n: nat) -> Seq<char>
    decreases n,
{
    if n < 10 {
        seq![digit_char(n)]
    } else {
        decimal(n / 10).push(digit_char(n % 10))
    }
}

fn digit_str(d: u32) -> (r: &'static str)
    requires
        d < 10,
    ensures
        r@ == seq![digit_char(d as nat)],
{
    match d {
        0 => {
            proof {
                reveal_strlit("0");
            }
            "0"
        },
        1 => {
            proof {
                reveal_strlit("1");
            }
            "1"
        },
        2 => {
            proof {
                reveal_strlit("2");
            }
            "2"
        },
        3 => {
            proof {
                reveal_strlit("3");
            }
            "3"
        },
        4 => {
            proof {
                reveal_strlit("4");
            }
            "4"
        },
        5 => {
            proof {
                reveal_strlit("5");
            }
            "5"
        },
        6 => {
            proof {
                reveal_strlit("6");
            }
            "6"
        },
        7 => {
            proof {
                reveal_strlit("7");
            }
            "7"
        },
        8 => {
            proof {
                reveal_strlit("8");
            }
            "8"
        },
        _ => {
            proof {
                reveal_strlit("9");
            }
            "9"
        },
    }
}

/// Writes `n` in decimal, as `Display` does for unsigned integers.
pub fn to_decimal(n: u32) -> (s: String)
    ensures
        s@ == decimal(n as nat),
    decreases n,
{
    if n < 10 {
        digit_str(n).to_owned()
    } else {
        let mut s = to_decimal(n / 10);
        s.append(digit_str(n % 10));
        s
    }
}

/// An IPv4 socket address: four octets `a.b.c.d` and a port.
#[derive(Clone, Copy, PartialEq, Eq, Structural, Debug)]
pub struct BindAddress {
    pub a: u8,
    pub b: u8,
    pub c: u8,
    pub d: u8,
    pub port: u16,
}

impl BindAddress {
    /// The text of the address, `a.b.c.d:port`, as std's `SocketAddrV4` shows it.
    pub open spec fn spec_text(self) -> Seq<char> {
        decimal(self.a as nat) + seq!['.'] + decimal(self.b as nat) + seq!['.']
            + decimal(self.c as nat) + seq!['.'] + decimal(self.d as nat) + seq![
            ':',
        ] + decimal(self.port as nat)
    }

    pub open spec fn spec_unspecified(port: u16) -> BindAddress {
        BindAddress { a: 0, b: 0, c: 0, d: 0, port }
    }

    /// The address `0.0.0.0:port`, which listens on every interface.
    pub fn unspecified(port: u16) -> (r: BindAddress)
        ensures
            r == BindAddress::spec_unspecified(port),
    {
        BindAddress { a: 0, b: 0, c: 0, d: 0, port }
    }

    /// Writes the address as `a.b.c.d:port`.
    pub fn to_text(&self) -> (s: String)
        ensures
            s@ == self.spec_text(),
    {
        proof {
            reveal_strlit(".");
            reveal_strlit(":");
        }
        let mut s = to_decimal(self.a as u32);
        s.append(".");
        s.append(to_decimal(self.b as u32).as_str());
        s.append(".");
        s.append(to_decimal(self.c as u32).as_str());
        s.append(".");
        s.append(to_decimal(self.d as u32).as_str());
        s.append(":");
        s.append(to_decimal(self.port as u32).as_str());
        s
    }
}

} // verus!
