//! The device identity and the server endpoint built from it.

use vstd::prelude::*;

verus! {

/// The lowercase hexadecimal digits, by value.
pub open spec fn hex_digits() -> Seq<char> {
    seq!['0', '1', '2', '3', '4', '5', '6', '7', '8', '9', 'a', 'b', 'c', 'd', 'e', 'f']
}

/// One byte as two lowercase hexadecimal digits, zero-padded.
pub open spec fn hex_byte(b: u8) -> Seq<char> {
    seq![hex_digits()[(b / 16) as int], hex_digits()[(b % 16) as int]]
}

/// The bytes of a hardware address as lowercase hexadecimal, two digits per
/// byte, with no separator.
pub open spec fn identity_of(mac: Seq<u8>) -> Seq<char>
    decreases mac.len(),
{
    if mac.len() == 0 {
        Seq::empty()
    } else {
        identity_of(mac.drop_last()) + hex_byte(mac.last())
    }
}

fn hex_digit(n: u8) -> (r: &'static str)
    requires
        n < 16,
    ensures
        r@ == seq![hex_digits()[n as int]],
{
    match n {
        0 => {
            proof {
                reveal_strlit("0");
            }
            "0"
        },
        1 => {
            proof {
                reveal_strlit("1");
            }
            "1"
        },
        2 => {
            proof {
                reveal_strlit("2");
            }
            "2"
        },
        3 => {
            proof {
                reveal_strlit("3");
            }
            "3"
        },
        4 => {
            proof {
                reveal_strlit("4");
            }
            "4"
        },
        5 => {
            proof {
                reveal_strlit("5");
            }
            "5"
        },
        6 => {
            proof {
                reveal_strlit("6");
            }
            "6"
        },
        7 => {
            proof {
                reveal_strlit("7");
            }
            "7"
        },
        8 => {
            proof {
                reveal_strlit("8");
            }
            "8"
        },
        9 => {
            proof {
                reveal_strlit("9");
            }
            "9"
        },
        10 => {
            proof {
                reveal_strlit("a");
            }
            "a"
        },
        11 => {
            proof {
                reveal_strlit("b");
            }
            "b"
        },
        12 => {
            proof {
                reveal_strlit("c");
            }
            "c"
        },
        13 => {
            proof {
                reveal_strlit("d");
            }
            "d"
        },
        14 => {
            proof {
                reveal_strlit("e");
            }
            "e"
        },
        _ => {
            proof {
                reveal_strlit("f");
            }
            "f"
        },
    }
}

/// The device identity: the MAC address as twelve lowercase hexadecimal
/// digits, zero-padded, with no separator.
pub fn device_identity(mac: [u8; 6]) -> (r: String)
    ensures
        r@ == identity_of(mac@),
        r@.len() == 12,
{
    let mut s = String::new();
    let mut i: usize = 0;
    while i < 6
        invariant
            i <= 6,
            mac@.len() == 6,
            s@ == identity_of(mac@.subrange(0, i as int)),
            s@.len() == 2 * i,
        decreases 6 - i,
    {
        let b = mac[i];
        let ghost before = s@;
        s.append(hex_digit(b / 16));
        s.append(hex_digit(b % 16));
        assert(mac@.subrange(0, i + 1).drop_last() =~= mac@.subrange(0, i as int));
        assert(s@ =~= before + hex_byte(b));
        i = i + 1;
    }
    assert(mac@.subrange(0, 6) =~= mac@);
    s
}

/// The protocol session's target: the server address from the settings
/// followed directly by the device identity.
pub fn session_endpoint(server_url: &str, mac: [u8; 6]) -> (r: String)
    ensures
        r@ == server_url@ + identity_of(mac@),
{
    let id = device_identity(mac);
    let mut s = String::from_str(server_url);
    s.append(id.as_str());
    s
}

} // verus!
