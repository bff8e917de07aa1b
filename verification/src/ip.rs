//! The resolved public address, and its rendering as a host-only CIDR.

use vstd::prelude::*;
use vstd::string::StringExecFns;

verus! {

/// An IPv4 address held as four plain octets, most significant first.
/// It stands for the public address resolved once per run.
#[derive(Clone, Copy, PartialEq, Eq, Structural, Debug)]
pub struct PublicIp {
    pub o0: u8,
    pub o1: u8,
    pub o2: u8,
    pub o3: u8,
}

/// The decimal digit `d` as a character.
pub open spec fn digit_char(d: nat) -> char {
    if d == 0 {
        '0'
    } else if d == 1 {
        '1'
    } else if d == 2 {
        '2'
    } else if d == 3 {
        '3'
    } else if d == 4 {
        '4'
    } else if d == 5 {
        '5'
    } else if d == 6 {
        '6'
    } else if d == 7 {
        '7'
    } else if d == 8 {
        '8'
    } else {
        '9'
    }
}

/// The decimal rendering of `n`, most significant digit first, with no
/// leading zeros (a lone zero renders as "0").
pub open spec fn dec_chars(n: nat) -> Seq<char>
    decreases n,
{
    if n < 10 {
        seq![digit_char(n)]
    } else {
        dec_chars(n / 10).push(digit_char(n % 10))
    }
}

/// `<o0>.<o1>.<o2>.<o3>/32`: the rule source every run authorizes,
/// scoping each port to the resolved address alone.
pub open spec fn cidr_chars(ip: PublicIp) -> Seq<char> {
    dec_chars(ip.o0 as nat) + "."@ + dec_chars(ip.o1 as nat) + "."@ + dec_chars(ip.o2 as nat)
        + "."@ + dec_chars(ip.o3 as nat) + "/32"@
}

fn digit_str(d: u8) -> (s: &'static str)
    requires
        d < 10,
    ensures
        s@ == seq![digit_char(d as nat)],
{
    if d == 0 {
        proof {
            reveal_strlit("0");
            assert("0"@ =~= seq![digit_char(0nat)]);
        }
        "0"
    } else if d == 1 {
        proof {
            reveal_strlit("1");
            assert("1"@ =~= seq![digit_char(1nat)]);
        }
        "1"
    } else if d == 2 {
        proof {
            reveal_strlit("2");
            assert("2"@ =~= seq![digit_char(2nat)]);
        }
        "2"
    } else if d == 3 {
        proof {
            reveal_strlit("3");
            assert("3"@ =~= seq![digit_char(3nat)]);
        }
        "3"
    } else if d == 4 {
        proof {
            reveal_strlit("4");
            assert("4"@ =~= seq![digit_char(4nat)]);
        }
        "4"
    } else if d == 5 {
        proof {
            reveal_strlit("5");
            assert("5"@ =~= seq![digit_char(5nat)]);
        }
        "5"
    } else if d == 6 {
        proof {
            reveal_strlit("6");
            assert("6"@ =~= seq![digit_char(6nat)]);
        }
        "6"
    } else if d == 7 {
        proof {
            reveal_strlit("7");
            assert("7"@ =~= seq![digit_char(7nat)]);
        }
        "7"
    } else if d == 8 {
        proof {
            reveal_strlit("8");
            assert("8"@ =~= seq![digit_char(8nat)]);
        }
        "8"
    } else {
        proof {
            reveal_strlit("9");
            assert("9"@ =~= seq![digit_char(9nat)]);
        }
        "9"
    }
}

/// Renders one octet in decimal.
pub fn decimal_octet(n: u8) -> (s: String)
    ensures
        s@ == dec_chars(n as nat),
{
    let mut s = String::new();
    if n >= 100 {
        s.append(digit_str(n / 100));
    }
    if n >= 10 {
        s.append(digit_str((n / 10) % 10));
    }
    s.append(digit_str(n % 10));
    proof {
        let m: nat = n as nat;
        if n >= 100 {
            vstd::arithmetic::div_mod::lemma_div_denominator(n as int, 10, 10);
            assert(m / 10 / 10 == m / 100);
            assert(m / 100 < 10);
            assert(m / 10 >= 10);
            assert(dec_chars(m / 100) == seq![digit_char(m / 100)]);
            assert(dec_chars(m / 10) == dec_chars(m / 10 / 10).push(digit_char((m / 10) % 10)));
            assert(dec_chars(m) == dec_chars(m / 10).push(digit_char(m % 10)));
            assert(s@ =~= dec_chars(m));
        } else if n >= 10 {
            assert(m / 10 < 10);
            assert((m / 10) % 10 == m / 10);
            assert(dec_chars(m / 10) == seq![digit_char(m / 10)]);
            assert(dec_chars(m) == dec_chars(m / 10).push(digit_char(m % 10)));
            assert(s@ =~= dec_chars(m));
        } else {
            assert(m % 10 == m);
            assert(dec_chars(m) == seq![digit_char(m)]);
            assert(s@ =~= dec_chars(m));
        }
    }
    s
}

/// Renders `ip` as the host-only CIDR `<ip>/32` handed to every
/// authorize call.
pub fn cidr_of(ip: &PublicIp) -> (s: String)
    ensures
        s@ == cidr_chars(*ip),
{
    let mut s = decimal_octet(ip.o0);
    s.append(".");
    let p1 = decimal_octet(ip.o1);
    s.append(p1.as_str());
    s.append(".");
    let p2 = decimal_octet(ip.o2);
    s.append(p2.as_str());
    s.append(".");
    let p3 = decimal_octet(ip.o3);
    s.append(p3.as_str());
    s.append("/32");
    proof {
        assert(s@ =~= cidr_chars(*ip));
    }
    s
}

} // verus!
