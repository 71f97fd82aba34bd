//! Firmware version of a sensor.

use vstd::prelude::*;
use vstd::string::StringExecFns;

verus! {

/// Firmware version, rendered as `vMAJOR.MINOR.PATCH`.
#[derive(Clone, Copy, Debug, PartialEq, Eq, Structural)]
pub struct Version {
    pub major: u8,
    pub minor: u8,
    pub patch: u8,
}

impl Version {
    /// The version that three wire bytes hold: patch, minor, major.
    pub open spec fn spec_from_wire(bytes: Seq<u8>) -> Version
        recommends
            bytes.len() == 3,
    {
        Version { major: bytes[2], minor: bytes[1], patch: bytes[0] }
    }

    /// The three wire bytes of a version: patch, minor, major.
    pub open spec fn spec_wire(self) -> Seq<u8> {
        seq![self.patch, self.minor, self.major]
    }

    /// The version with the given numbers.
    pub fn new(major: u8, minor: u8, patch: u8) -> (v: Version)
        ensures
            v == (Version { major, minor, patch }),
    {
        Version { major, minor, patch }
    }

    /// The bytes of this version in wire order: patch, minor, major.
    pub fn wire_bytes(&self) -> (bytes: [u8; 3])
        ensures
            bytes@ == self.spec_wire(),
    {
        [self.patch, self.minor, self.major]
    }

    /// Reading a version from the wire and writing it back gives the same
    /// three bytes, and writing then reading gives the same version.
    pub proof fn lemma_wire_round_trip(bytes: Seq<u8>)
        requires
            bytes.len() == 3,
        ensures
            Self::spec_from_wire(bytes).spec_wire() == bytes,
            forall|v: Version| Self::spec_from_wire(#[trigger] v.spec_wire()) == v,
    {
        assert(Self::spec_from_wire(bytes).spec_wire() =~= bytes);
    }
}

/// The decimal digit for `d`, which is at most 9.
pub open spec fn spec_digit(d: int) -> char
    recommends
        0 <= d <= 9,
{
    if d == 0 {
        '0'
    } else if d == 1 {
        '1'
    } else if d == 2 {
        '2'
    } else if d == 3 {
        '3'
    } else if d == 4 {
        '4'
    } else if d == 5 {
        '5'
    } else if d == 6 {
        '6'
    } else if d == 7 {
        '7'
    } else if d == 8 {
        '8'
    } else {
        '9'
    }
}

/// The decimal numeral of `n`, without leading zeros.
pub open spec fn spec_decimal(n: u8) -> Seq<char> {
    if n >= 100 {
        seq![spec_digit(n as int / 100), spec_digit((n as int / 10) % 10), spec_digit(n as int % 10)]
    } else if n >= 10 {
        seq![spec_digit(n as int / 10), spec_digit(n as int % 10)]
    } else {
        seq![spec_digit(n as int)]
    }
}

/// The one-character text of the decimal digit for `d`.
fn digit_text(d: u8) -> (text: &'static str)
    requires
        d <= 9,
    ensures
        text@ == seq![spec_digit(d as int)],
{
    let text = match d {
        0 => {
            proof {
                reveal_strlit("0");
            }
            "0"
        },
        1 => {
            proof {
                reveal_strlit("1");
            }
            "1"
        },
        2 => {
            proof {
                reveal_strlit("2");
            }
            "2"
        },
        3 => {
            proof {
                reveal_strlit("3");
            }
            "3"
        },
        4 => {
            proof {
                reveal_strlit("4");
            }
            "4"
        },
        5 => {
            proof {
                reveal_strlit("5");
            }
            "5"
        },
        6 => {
            proof {
                reveal_strlit("6");
            }
            "6"
        },
        7 => {
            proof {
                reveal_strlit("7");
            }
            "7"
        },
        8 => {
            proof {
                reveal_strlit("8");
            }
            "8"
        },
        _ => {
            proof {
                reveal_strlit("9");
            }
            "9"
        },
    };
    assert(text@ =~= seq![spec_digit(d as int)]);
    text
}

/// Appends the decimal numeral of `n` to `out`.
fn append_decimal(out: &mut String, n: u8)
    ensures
        final(out)@ == old(out)@ + spec_decimal(n),
{
    if n >= 100 {
        out.append(digit_text(n / 100));
    }
    if n >= 10 {
        out.append(digit_text((n / 10) % 10));
    }
    out.append(digit_text(n % 10));
    assert(out@ =~= old(out)@ + spec_decimal(n));
}

impl Version {
    /// The text of a version: `v`, then major, minor and patch in decimal,
    /// separated by dots.
    pub open spec fn spec_text(self) -> Seq<char> {
        seq!['v'] + spec_decimal(self.major) + seq!['.'] + spec_decimal(self.minor) + seq!['.']
            + spec_decimal(self.patch)
    }

    /// Renders the version as `vMAJOR.MINOR.PATCH`.
    pub fn to_string(&self) -> (text: String)
        ensures
            text@ == self.spec_text(),
    {
        proof {
            reveal_strlit("v");
            reveal_strlit(".");
        }
        let mut text = String::new();
        text.append("v");
        append_decimal(&mut text, self.major);
        text.append(".");
        append_decimal(&mut text, self.minor);
        text.append(".");
        append_decimal(&mut text, self.patch);
        assert(text@ =~= self.spec_text());
        text
    }
}

} // verus!
