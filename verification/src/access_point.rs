//! Access points and the lines that describe them. An address of the sixth
//! version of the protocol is shown as it is written, in hexadecimal, or
//! digit by digit in binary.

use vstd::prelude::*;
use vstd::string::StringExecFns;
use crate::chars::chars_of;
use crate::decimal::{push_signed_decimal, signed_decimal};

verus! {

/// How an address of the sixth version is shown.
#[derive(Clone, Copy, Debug, PartialEq, Eq, Structural)]
pub enum V6Format {
    /// Four binary digits for each hexadecimal digit.
    Bin,
    /// As written.
    Hex,
}

/// The kind of address an access point has.
#[derive(Clone, Copy, Debug, PartialEq, Eq, Structural)]
pub enum IpAddrKind {
    /// The fourth version of the protocol.
    V4,
    /// The sixth version, with the way its address is shown.
    V6(V6Format),
    /// No kind is known.
    Unspecified,
}

/// An access point.
#[derive(Debug)]
pub struct Ap {
    /// Its number.
    pub id: i32,
    /// The name it is shown under.
    pub name: String,
    /// The kind of its address.
    pub kind: IpAddrKind,
    /// Its address, as written.
    pub address: String,
}

/// The value of a hexadecimal digit, in either case; `None` for any other
/// character.
pub open spec fn hex_value(c: char) -> Option<u8> {
    if '0' <= c <= '9' {
        Some((c as int - '0' as int) as u8)
    } else if 'a' <= c <= 'f' {
        Some((c as int - 'a' as int + 10) as u8)
    } else if 'A' <= c <= 'F' {
        Some((c as int - 'A' as int + 10) as u8)
    } else {
        None
    }
}

/// The character for one binary digit.
pub open spec fn bit_char(bit: int) -> char {
    if bit == 0 {
        '0'
    } else {
        '1'
    }
}

/// A value below sixteen as four binary digits, most significant first.
pub open spec fn nibble_bits(value: int) -> Seq<char> {
    seq![
        bit_char(value / 8 % 2),
        bit_char(value / 4 % 2),
        bit_char(value / 2 % 2),
        bit_char(value % 2),
    ]
}

/// What one character of an address becomes in binary: a colon stays a
/// colon, a hexadecimal digit becomes its four binary digits.
pub open spec fn binary_group(c: char) -> Seq<char> {
    if c == ':' {
        seq![':']
    } else {
        nibble_bits(hex_value(c).unwrap() as int)
    }
}

/// Whether an address can be shown in binary: it holds nothing but
/// hexadecimal digits and colons.
pub open spec fn convertible(hex: Seq<char>) -> bool {
    forall|i: int| 0 <= i < hex.len() ==> hex[i] == ':' || hex_value(#[trigger] hex[i]) is Some
}

/// An address in binary: the groups of its characters, in order.
pub open spec fn binary_of(hex: Seq<char>) -> Seq<char>
    decreases hex.len(),
{
    if hex.len() == 0 {
        Seq::empty()
    } else {
        binary_of(hex.drop_last()) + binary_group(hex.last())
    }
}

/// The number that a sequence of binary digits stands for, read most
/// significant first.
pub open spec fn bits_value(bits: Seq<char>) -> nat
    decreases bits.len(),
{
    if bits.len() == 0 {
        0
    } else {
        bits_value(bits.drop_last()) * 2 + if bits.last() == '1' {
            1nat
        } else {
            0nat
        }
    }
}

/// The value of the hexadecimal digit `c`.
pub fn hex_digit(c: char) -> (value: Option<u8>)
    ensures
        value == hex_value(c),
        value matches Some(v) ==> v < 16,
{
    if '0' <= c && c <= '9' {
        Some((c as u32 - '0' as u32) as u8)
    } else if 'a' <= c && c <= 'f' {
        Some((c as u32 - 'a' as u32 + 10) as u8)
    } else if 'A' <= c && c <= 'F' {
        Some((c as u32 - 'A' as u32 + 10) as u8)
    } else {
        None
    }
}

/// Whether `hex` holds nothing but hexadecimal digits and colons.
pub fn is_convertible(hex: &str) -> (b: bool)
    ensures
        b == convertible(hex@),
{
    let v = chars_of(hex);
    let mut i: usize = 0;
    while i < v.len()
        invariant
            i <= v.len(),
            v@ == hex@,
            forall|j: int| 0 <= j < i ==> v@[j] == ':' || hex_value(#[trigger] v@[j]) is Some,
        decreases v.len() - i,
    {
        let c = v[i];
        if c != ':' && hex_digit(c).is_none() {
            assert(!(hex@[i as int] == ':' || hex_value(hex@[i as int]) is Some));
            return false;
        }
        i += 1;
    }
    true
}

/// Appends the four binary digits of `value` to `out`.
fn push_nibble(out: &mut String, value: u8)
    requires
        value < 16,
    ensures
        final(out)@ == old(out)@ + nibble_bits(value as int),
{
    out.push(if value / 8 % 2 == 0 { '0' } else { '1' });
    out.push(if value / 4 % 2 == 0 { '0' } else { '1' });
    out.push(if value / 2 % 2 == 0 { '0' } else { '1' });
    out.push(if value % 2 == 0 { '0' } else { '1' });
}

/// Shows an address in binary: every hexadecimal digit as four binary
/// digits, every colon as it is.
pub fn hex_to_bin(hex: &str) -> (bin: String)
    requires
        convertible(hex@),
    ensures
        bin@ == binary_of(hex@),
{
    let v = chars_of(hex);
    let mut bin = String::new();
    let mut i: usize = 0;
    while i < v.len()
        invariant
            i <= v.len(),
            v@ == hex@,
            convertible(hex@),
            bin@ == binary_of(v@.take(i as int)),
        decreases v.len() - i,
    {
        let c = v[i];
        let ghost next = v@.take(i + 1);
        assert(next.drop_last() == v@.take(i as int));
        assert(next.last() == c);
        assert(c == ':' || hex_value(hex@[i as int]) is Some);
        if c == ':' {
            bin.push(':');
        } else {
            match hex_digit(c) {
                Some(value) => {
                    push_nibble(&mut bin, value);
                },
                None => {
                    assert(false);
                },
            }
        }
        i += 1;
    }
    assert(v@.take(v.len() as int) == v@);
    bin
}

/// A hexadecimal digit in lower case becomes exactly four binary digits
/// that stand for its value, with zeros in front where the value is small;
/// a colon becomes a colon and nothing else.
pub proof fn lemma_binary_group(c: char)
    requires
        '0' <= c <= '9' || 'a' <= c <= 'f',
    ensures
        binary_of(seq![c]).len() == 4,
        forall|i: int|
            0 <= i < 4 ==> binary_of(seq![c])[i] == '0' || binary_of(seq![c])[i] == '1',
        '0' <= c <= '9' ==> bits_value(binary_of(seq![c])) == c as int - '0' as int,
        'a' <= c <= 'f' ==> bits_value(binary_of(seq![c])) == c as int - 'a' as int + 10,
        binary_of(seq![':']) == seq![':'],
{
    lemma_binary_of_one(c);
    lemma_binary_of_one(':');
    let value = hex_value(c).unwrap() as int;
    let bits = nibble_bits(value);
    assert(binary_of(seq![c]) == bits);
    assert(bits.drop_last() == seq![bits[0], bits[1], bits[2]]);
    assert(bits.drop_last().drop_last() == seq![bits[0], bits[1]]);
    assert(bits.drop_last().drop_last().drop_last() == seq![bits[0]]);
    assert(bits.drop_last().drop_last().drop_last().drop_last() == Seq::<char>::empty());
    reveal_with_fuel(bits_value, 5);
    assert(bits_value(bits) == value);
}

/// An address of one character becomes the group of that character.
proof fn lemma_binary_of_one(c: char)
    ensures
        binary_of(seq![c]) == binary_group(c),
{
    let one = seq![c];
    assert(one.drop_last() == Seq::<char>::empty());
    assert(binary_of(one) == binary_of(one.drop_last()) + binary_group(one.last()));
    assert(Seq::<char>::empty() + binary_group(c) == binary_group(c));
}

/// The binary form of two pieces of an address, one after the other, is the
/// binary form of the first followed by that of the second.
pub proof fn lemma_binary_of_concat(front: Seq<char>, back: Seq<char>)
    ensures
        binary_of(front + back) == binary_of(front) + binary_of(back),
    decreases back.len(),
{
    if back.len() == 0 {
        assert(front + back == front);
        assert(binary_of(front) + Seq::<char>::empty() == binary_of(front));
    } else {
        let whole = front + back;
        assert(whole.drop_last() == front + back.drop_last());
        assert(whole.last() == back.last());
        lemma_binary_of_concat(front, back.drop_last());
        assert(binary_of(front) + binary_of(back.drop_last()) + binary_group(back.last())
            == binary_of(front) + (binary_of(back.drop_last()) + binary_group(back.last())));
    }
}

/// How the kind of an address is named in a line; `None` where no kind is
/// known.
pub open spec fn kind_label(kind: IpAddrKind) -> Option<Seq<char>> {
    match kind {
        IpAddrKind::V4 => Some("IPv4"@),
        IpAddrKind::V6(V6Format::Hex) => Some("IPv6 (Hex)"@),
        IpAddrKind::V6(V6Format::Bin) => Some("IPv6 (Bin)"@),
        IpAddrKind::Unspecified => None,
    }
}

/// The address of an access point as its line shows it: in binary for the
/// binary format, as written otherwise.
pub open spec fn shown_address(ap: Ap) -> Seq<char> {
    if ap.kind == IpAddrKind::V6(V6Format::Bin) {
        binary_of(ap.address@)
    } else {
        ap.address@
    }
}

/// Whether the line of an access point can be written: an address that is
/// to be shown in binary must be convertible.
pub open spec fn renderable(ap: Ap) -> bool {
    ap.kind == IpAddrKind::V6(V6Format::Bin) ==> convertible(ap.address@)
}

/// The line that describes an access point: its number, name, kind and
/// address, or an error line where no kind is known.
pub open spec fn rendered(ap: Ap) -> Seq<char> {
    match kind_label(ap.kind) {
        Some(label) => "id: "@ + signed_decimal(ap.id as int) + ", name: "@ + ap.name@
            + ", kind: "@ + label + ", address: "@ + shown_address(ap),
        None => "error fetch IP address kind"@,
    }
}

impl IpAddrKind {
    /// How this kind is named in a line; `None` where no kind is known.
    pub fn label(self) -> (label: Option<&'static str>)
        ensures
            label is Some == kind_label(self) is Some,
            label matches Some(text) ==> kind_label(self) == Some(text@),
    {
        match self {
            IpAddrKind::V4 => Some("IPv4"),
            IpAddrKind::V6(V6Format::Hex) => Some("IPv6 (Hex)"),
            IpAddrKind::V6(V6Format::Bin) => Some("IPv6 (Bin)"),
            IpAddrKind::Unspecified => None,
        }
    }
}

impl Ap {
    /// The line that describes this access point.
    pub fn render(&self) -> (line: String)
        requires
            renderable(*self),
        ensures
            line@ == rendered(*self),
    {
        match self.kind.label() {
            Some(label) => {
                let mut line = String::new();
                line.append("id: ");
                push_signed_decimal(&mut line, self.id as i64);
                line.append(", name: ");
                line.append(self.name.as_str());
                line.append(", kind: ");
                line.append(label);
                line.append(", address: ");
                match self.kind {
                    IpAddrKind::V6(V6Format::Bin) => {
                        let bin = hex_to_bin(self.address.as_str());
                        line.append(bin.as_str());
                    },
                    _ => {
                        line.append(self.address.as_str());
                    },
                }
                assert(line@ == rendered(*self));
                line
            },
            None => String::from_str("error fetch IP address kind"),
        }
    }

    /// Whether the line of this access point can be written.
    pub fn is_renderable(&self) -> (b: bool)
        ensures
            b == renderable(*self),
    {
        match self.kind {
            IpAddrKind::V6(V6Format::Bin) => is_convertible(self.address.as_str()),
            _ => true,
        }
    }
}

/// The lines of a batch of access points, one for each, in order.
pub fn render_all(aps: &Vec<Ap>) -> (lines: Vec<String>)
    requires
        forall|i: int| 0 <= i < aps.len() ==> renderable(#[trigger] aps[i]),
    ensures
        lines.len() == aps.len(),
        forall|i: int| 0 <= i < aps.len() ==> (#[trigger] lines[i])@ == rendered(aps[i]),
{
    let mut lines: Vec<String> = Vec::new();
    let mut i: usize = 0;
    while i < aps.len()
        invariant
            i <= aps.len(),
            lines.len() == i,
            forall|j: int| 0 <= j < aps.len() ==> renderable(#[trigger] aps[j]),
            forall|j: int| 0 <= j < i ==> (#[trigger] lines[j])@ == rendered(aps[j]),
        decreases aps.len() - i,
    {
        assert(renderable(aps[i as int]));
        lines.push(aps[i].render());
        i += 1;
    }
    lines
}

/// The batch of access points that the demonstration describes.
pub fn sample_aps() -> (aps: Vec<Ap>)
    ensures
        aps.len() == 4,
        aps[0].id == 1 && aps[0].name@ == "AC-01"@ && aps[0].kind == IpAddrKind::V4
            && aps[0].address@ == "127.0.0.1"@,
        aps[1].id == 2 && aps[1].name@ == "ACX-01"@ && aps[1].kind == IpAddrKind::V6(
            V6Format::Hex,
        ) && aps[1].address@ == "2377:3b49:3ef1:63ab:b003:8a2e:5b4c:3d02"@,
        aps[2].id == 3 && aps[2].name@ == "ACX-01"@ && aps[2].kind == IpAddrKind::V6(
            V6Format::Bin,
        ) && aps[2].address@ == "2377:3b49:3ef1:63ab:b003:8a2e:5b4c:3d02"@,
        aps[3].id == 4 && aps[3].name@ == "AC-02 --beta"@ && aps[3].kind
            == IpAddrKind::Unspecified && aps[3].address@ == "0.0.0.0"@,
        forall|i: int| 0 <= i < 4 ==> renderable(#[trigger] aps[i]),
{
    let mut aps: Vec<Ap> = Vec::new();
    aps.push(
        Ap {
            id: 1,
            name: String::from_str("AC-01"),
            kind: IpAddrKind::V4,
            address: String::from_str("127.0.0.1"),
        },
    );
    aps.push(
        Ap {
            id: 2,
            name: String::from_str("ACX-01"),
            kind: IpAddrKind::V6(V6Format::Hex),
            address: String::from_str("2377:3b49:3ef1:63ab:b003:8a2e:5b4c:3d02"),
        },
    );
    aps.push(
        Ap {
            id: 3,
            name: String::from_str("ACX-01"),
            kind: IpAddrKind::V6(V6Format::Bin),
            address: String::from_str("2377:3b49:3ef1:63ab:b003:8a2e:5b4c:3d02"),
        },
    );
    aps.push(
        Ap {
            id: 4,
            name: String::from_str("AC-02 --beta"),
            kind: IpAddrKind::Unspecified,
            address: String::from_str("0.0.0.0"),
        },
    );
    proof {
        reveal_strlit("2377:3b49:3ef1:63ab:b003:8a2e:5b4c:3d02");
        assert(convertible("2377:3b49:3ef1:63ab:b003:8a2e:5b4c:3d02"@));
    }
    aps
}

/// The lines of the demonstration: one for each access point of the batch.
pub fn enum_struct() -> (lines: Vec<String>)
    ensures
        lines.len() == 4,
        lines[0]@ == "id: "@ + signed_decimal(1) + ", name: "@ + "AC-01"@ + ", kind: "@ + "IPv4"@
            + ", address: "@ + "127.0.0.1"@,
        lines[1]@ == "id: "@ + signed_decimal(2) + ", name: "@ + "ACX-01"@ + ", kind: "@
            + "IPv6 (Hex)"@ + ", address: "@ + "2377:3b49:3ef1:63ab:b003:8a2e:5b4c:3d02"@,
        lines[2]@ == "id: "@ + signed_decimal(3) + ", name: "@ + "ACX-01"@ + ", kind: "@
            + "IPv6 (Bin)"@ + ", address: "@ + binary_of(
            "2377:3b49:3ef1:63ab:b003:8a2e:5b4c:3d02"@,
        ),
        lines[3]@ == "error fetch IP address kind"@,
{
    let aps = sample_aps();
    let lines = render_all(&aps);
    assert(lines[0]@ == rendered(aps[0]));
    assert(lines[1]@ == rendered(aps[1]));
    assert(lines[2]@ == rendered(aps[2]));
    assert(lines[3]@ == rendered(aps[3]));
    lines
}

} // verus!
