//! How a peer's advertised services and transport are shown.

use vstd::prelude::*;
use vstd::string::*;

use crate::statistics::{hex_digit, TransportProtocol};

verus! {

/// Bit `bit` is set in `services`.
pub open spec fn has_service(services: u64, bit: u64) -> bool {
    services & (1u64 << bit) != 0
}

pub open spec fn name_if(set: bool, name: Seq<char>) -> Seq<Seq<char>> {
    if set {
        seq![name]
    } else {
        Seq::empty()
    }
}

/// The names of the services a peer advertises, in bit order: the standard flags, then the
/// two Utreexo flags.
pub open spec fn service_names_spec(s: u64) -> Seq<Seq<char>> {
    name_if(has_service(s, 0), "NETWORK"@) + name_if(has_service(s, 1), "GETUTXO"@) + name_if(
        has_service(s, 2),
        "BLOOM"@,
    ) + name_if(has_service(s, 3), "WITNESS"@) + name_if(has_service(s, 6), "COMPACT_FILTERS"@)
        + name_if(has_service(s, 10), "NETWORK_LIMITED"@) + name_if(has_service(s, 11), "P2P_V2"@)
        + name_if(has_service(s, 24), "NODE_UTREEXO"@) + name_if(
        has_service(s, 25),
        "NODE_UTREEXO_ARCHIVE"@,
    )
}

/// The views of the names in `v`.
pub open spec fn views(v: Seq<String>) -> Seq<Seq<char>> {
    v.map_values(|s: String| s@)
}

fn push_if(out: &mut Vec<String>, services: u64, bit: u64, name: &str)
    requires
        bit < 64,
    ensures
        views(final(out)@) == views(old(out)@) + name_if(has_service(services, bit), name@),
{
    if services & (1u64 << bit) != 0 {
        out.push(String::from_str(name));
        proof {
            assert(views(final(out)@) =~= views(old(out)@) + seq![name@]);
        }
    } else {
        proof {
            assert(views(final(out)@) =~= views(old(out)@) + Seq::<Seq<char>>::empty());
        }
    }
}

/// The names of the services set in `services`, in bit order.
pub fn service_names(services: u64) -> (r: Vec<String>)
    ensures
        views(r@) == service_names_spec(services),
{
    let mut out: Vec<String> = Vec::new();
    proof {
        assert(views(out@) =~= Seq::<Seq<char>>::empty());
    }
    push_if(&mut out, services, 0, "NETWORK");
    push_if(&mut out, services, 1, "GETUTXO");
    push_if(&mut out, services, 2, "BLOOM");
    push_if(&mut out, services, 3, "WITNESS");
    push_if(&mut out, services, 6, "COMPACT_FILTERS");
    push_if(&mut out, services, 10, "NETWORK_LIMITED");
    push_if(&mut out, services, 11, "P2P_V2");
    push_if(&mut out, services, 24, "NODE_UTREEXO");
    push_if(&mut out, services, 25, "NODE_UTREEXO_ARCHIVE");
    proof {
        assert(Seq::<Seq<char>>::empty() + name_if(has_service(services, 0), "NETWORK"@)
            =~= name_if(has_service(services, 0), "NETWORK"@));
    }
    out
}

/// The last `width` hexadecimal digits of `n`, zeros in front where `n` is shorter.
pub open spec fn hex_fixed(n: nat, width: nat) -> Seq<char>
    decreases width,
{
    if width == 0 {
        Seq::empty()
    } else {
        hex_fixed(n / 16, (width - 1) as nat).push(hex_digit((n % 16) as int))
    }
}

fn hex_digit_str(d: u64) -> (r: &'static str)
    requires
        d < 16,
    ensures
        r@ == seq![hex_digit(d as int)],
{
    proof {
        reveal_strlit("0");
        reveal_strlit("1");
        reveal_strlit("2");
        reveal_strlit("3");
        reveal_strlit("4");
        reveal_strlit("5");
        reveal_strlit("6");
        reveal_strlit("7");
        reveal_strlit("8");
        reveal_strlit("9");
        reveal_strlit("a");
        reveal_strlit("b");
        reveal_strlit("c");
        reveal_strlit("d");
        reveal_strlit("e");
        reveal_strlit("f");
    }
    if d == 0 {
        "0"
    } else if d == 1 {
        "1"
    } else if d == 2 {
        "2"
    } else if d == 3 {
        "3"
    } else if d == 4 {
        "4"
    } else if d == 5 {
        "5"
    } else if d == 6 {
        "6"
    } else if d == 7 {
        "7"
    } else if d == 8 {
        "8"
    } else if d == 9 {
        "9"
    } else if d == 10 {
        "a"
    } else if d == 11 {
        "b"
    } else if d == 12 {
        "c"
    } else if d == 13 {
        "d"
    } else if d == 14 {
        "e"
    } else {
        "f"
    }
}

fn hex_fixed_text(n: u64, width: u64) -> (r: String)
    ensures
        r@ == hex_fixed(n as nat, width as nat),
    decreases width,
{
    if width == 0 {
        String::new()
    } else {
        let mut r = hex_fixed_text(n / 16, width - 1);
        r.append(hex_digit_str(n % 16));
        r
    }
}

/// The service bits as `0x` and sixteen lower-case hexadecimal digits.
pub fn services_hex(services: u64) -> (r: String)
    ensures
        r@ == "0x"@ + hex_fixed(services as nat, 16),
{
    let mut r = String::from_str("0x");
    let digits = hex_fixed_text(services, 16);
    r.append(digits.as_str());
    r
}

impl TransportProtocol {
    /// The short name of the transport.
    pub fn label(&self) -> (r: &'static str)
        ensures
            r@ == (match *self {
                TransportProtocol::V1 => "P2PV1"@,
                TransportProtocol::V2 => "P2PV2"@,
            }),
    {
        match self {
            TransportProtocol::V1 => "P2PV1",
            TransportProtocol::V2 => "P2PV2",
        }
    }

    /// What the transport means for the peer's traffic.
    pub fn description(&self) -> (r: &'static str)
        ensures
            r@ == (match *self {
                TransportProtocol::V1 => "Network messages between you and\nthis peer are not encrypted"@,
                TransportProtocol::V2 => "Network messages between you and this\npeer are encrypted using ChaCha20Poly1305"@,
            }),
    {
        match self {
            TransportProtocol::V1 => "Network messages between you and\nthis peer are not encrypted",
            TransportProtocol::V2 => "Network messages between you and this\npeer are encrypted using ChaCha20Poly1305",
        }
    }
}

} // verus!
