//! The pkt-line framing of git's smart protocol: four hexadecimal digits that
//! give the length of the whole packet, then the payload. `0000` is the flush
//! packet.
use vstd::prelude::*;
use vstd::string::StringSliceAdditionalSpecFns;

verus! {

/// The lowercase hexadecimal digit for `d`, as an ASCII byte.
pub open spec fn hex_digit(d: nat) -> u8
    recommends
        d < 16,
{
    if d < 10 {
        (48 + d) as u8
    } else {
        (87 + d) as u8
    }
}

/// `n` in lowercase hexadecimal, without leading zeros.
pub open spec fn hex_digits(n: nat) -> Seq<u8>
    decreases n,
{
    if n < 16 {
        seq![hex_digit(n)]
    } else {
        hex_digits(n / 16).push(hex_digit(n % 16))
    }
}

/// `k` times the digit `0`.
pub open spec fn zeros(k: nat) -> Seq<u8> {
    Seq::new(k, |i: int| 48u8)
}

/// The length header for a packet of `n` bytes: `n` in hexadecimal, filled
/// with zeros on the left to the next multiple of four digits.
pub open spec fn length_header(n: nat) -> Seq<u8> {
    let digits = hex_digits(n);
    zeros(((4 - digits.len() % 4) % 4) as nat) + digits
}

/// The packet that carries `payload`.
pub open spec fn packet(payload: Seq<u8>) -> Seq<u8> {
    length_header(payload.len() + 4) + payload
}

/// The flush packet.
pub open spec fn flush_packet() -> Seq<u8> {
    zeros(4)
}

/// The value of one hexadecimal digit, of either case.
pub open spec fn hex_value(b: u8) -> Option<nat> {
    if 48 <= b <= 57 {
        Some((b - 48) as nat)
    } else if 97 <= b <= 102 {
        Some((b - 87) as nat)
    } else if 65 <= b <= 70 {
        Some((b - 55) as nat)
    } else {
        None
    }
}

/// The number that the first four bytes of `bytes` spell in hexadecimal.
pub open spec fn header_value(bytes: Seq<u8>) -> Option<nat> {
    if bytes.len() < 4 {
        None
    } else {
        match (hex_value(bytes[0]), hex_value(bytes[1]), hex_value(bytes[2]), hex_value(bytes[3])) {
            (Some(a), Some(b), Some(c), Some(d)) => Some(a * 4096 + b * 256 + c * 16 + d),
            _ => None,
        }
    }
}

/// What the first packet of a byte stream holds.
pub enum Packet {
    /// The flush packet `0000`.
    Flush,
    /// A data packet with its payload.
    Data(Vec<u8>),
}

/// The mathematical content of a [`Packet`].
pub enum PacketView {
    Flush,
    Data(Seq<u8>),
}

impl View for Packet {
    type V = PacketView;

    open spec fn view(&self) -> PacketView {
        match self {
            Packet::Flush => PacketView::Flush,
            Packet::Data(payload) => PacketView::Data(payload@),
        }
    }
}

/// The first packet of `bytes`: none where the header is no hexadecimal
/// number, where it gives a length of one to three, or where fewer bytes
/// follow than it announces.
pub open spec fn first_packet(bytes: Seq<u8>) -> Option<PacketView> {
    match header_value(bytes) {
        None => None,
        Some(n) => if n == 0 {
            Some(PacketView::Flush)
        } else if n < 4 || bytes.len() < n {
            None
        } else {
            Some(PacketView::Data(bytes.subrange(4, n as int)))
        },
    }
}

fn hex_byte(d: u8) -> (b: u8)
    requires
        d < 16,
    ensures
        b == hex_digit(d as nat),
{
    if d < 10 {
        48 + d
    } else {
        87 + d
    }
}

fn hex_number(b: u8) -> (v: Option<u16>)
    ensures
        match v {
            Some(n) => hex_value(b) == Some(n as nat) && n < 16,
            None => hex_value(b) is None,
        },
{
    if 48 <= b && b <= 57 {
        Some((b - 48) as u16)
    } else if 97 <= b && b <= 102 {
        Some((b - 87) as u16)
    } else if 65 <= b && b <= 70 {
        Some((b - 55) as u16)
    } else {
        None
    }
}

/// The length header for a packet of `n` bytes.
fn write_header(n: u128) -> (out: Vec<u8>)
    ensures
        out@ == length_header(n as nat),
{
    let mut out: Vec<u8> = Vec::new();
    let mut m: u128 = n;
    loop
        invariant_except_break
            hex_digits(n as nat) == hex_digits(m as nat) + out@,
        ensures
            out@ == hex_digits(n as nat),
        decreases m,
    {
        let d: u8 = (m % 16) as u8;
        let ghost before = out@;
        out.insert(0, hex_byte(d));
        assert(out@ =~= seq![hex_digit(d as nat)] + before);
        if m < 16 {
            assert(hex_digits(m as nat) + before =~= out@);
            break;
        }
        assert(hex_digits(m as nat) + before =~= hex_digits((m / 16) as nat) + out@);
        m = m / 16;
    }
    let ghost digits = out@;
    let pad: usize = (4 - out.len() % 4) % 4;
    let mut k: usize = 0;
    while k < pad
        invariant
            k <= pad,
            out@ == zeros(k as nat) + digits,
        decreases pad - k,
    {
        out.insert(0, 48u8);
        assert(out@ =~= zeros((k + 1) as nat) + digits);
        k += 1;
    }
    out
}

/// Frames `s` as one packet: the length header, then the bytes of `s`.
pub fn packet_write(s: &str) -> (out: Vec<u8>)
    ensures
        out@ == packet(s.spec_bytes()),
{
    let payload = s.as_bytes();
    let length: u128 = payload.len() as u128 + 4;
    let mut out = write_header(length);
    let ghost header = out@;
    let mut i: usize = 0;
    while i < payload.len()
        invariant
            i <= payload.len(),
            out@ == header + payload@.take(i as int),
        decreases payload.len() - i,
    {
        out.push(payload[i]);
        assert(out@ =~= header + payload@.take(i + 1));
        i += 1;
    }
    assert(payload@.take(payload@.len() as int) =~= payload@);
    out
}

/// The flush packet: the four bytes `0000`.
pub fn packet_flush() -> (out: Vec<u8>)
    ensures
        out@ == flush_packet(),
{
    let mut out: Vec<u8> = Vec::new();
    out.push(48u8);
    out.push(48u8);
    out.push(48u8);
    out.push(48u8);
    assert(out@ =~= flush_packet());
    out
}

/// Reads the first packet of `bytes`.
pub fn packet_read(bytes: &[u8]) -> (r: Option<Packet>)
    ensures
        match r {
            Some(p) => first_packet(bytes@) == Some(p@),
            None => first_packet(bytes@) is None,
        },
{
    if bytes.len() < 4 {
        return None;
    }
    let a = hex_number(bytes[0]);
    let b = hex_number(bytes[1]);
    let c = hex_number(bytes[2]);
    let d = hex_number(bytes[3]);
    match (a, b, c, d) {
        (Some(a), Some(b), Some(c), Some(d)) => {
            let n: u16 = a * 4096 + b * 256 + c * 16 + d;
            if n == 0 {
                Some(Packet::Flush)
            } else if n < 4 || bytes.len() < n as usize {
                None
            } else {
                let mut payload: Vec<u8> = Vec::new();
                let mut i: usize = 4;
                while i < n as usize
                    invariant
                        4 <= i <= n <= bytes.len(),
                        payload@ == bytes@.subrange(4, i as int),
                    decreases n - i,
                {
                    payload.push(bytes[i]);
                    assert(payload@ =~= bytes@.subrange(4, i + 1));
                    i += 1;
                }
                Some(Packet::Data(payload))
            }
        },
        _ => None,
    }
}

/// A header of four digits spells the length it was written for.
proof fn lemma_header_of_short_length(n: nat)
    requires
        n <= 0xFFFF,
    ensures
        length_header(n).len() == 4,
        header_value(length_header(n)) == Some(n),
{
    reveal_with_fuel(hex_digits, 4);
    let h = length_header(n);
    let d = hex_digits(n);
    if n < 16 {
        assert(h =~= seq![48u8, 48u8, 48u8, hex_digit(n)]);
    } else if n < 256 {
        assert(h =~= seq![48u8, 48u8, hex_digit(n / 16), hex_digit(n % 16)]);
    } else if n < 4096 {
        assert(h =~= seq![48u8, hex_digit(n / 256), hex_digit(n / 16 % 16), hex_digit(n % 16)]);
    } else {
        assert(h =~= seq![
            hex_digit(n / 4096),
            hex_digit(n / 256 % 16),
            hex_digit(n / 16 % 16),
            hex_digit(n % 16),
        ]);
    }
}

/// Reading what `packet` wrote gives the payload back, and the header spells
/// the packet's length, wherever that length fits in four digits. The flush
/// packet reads as a flush.
pub proof fn lemma_packet_round_trip(payload: Seq<u8>)
    requires
        payload.len() + 4 <= 0xFFFF,
    ensures
        packet(payload).len() == payload.len() + 4,
        header_value(packet(payload)) == Some(payload.len() + 4),
        first_packet(packet(payload)) == Some(PacketView::Data(payload)),
        first_packet(flush_packet()) == Some(PacketView::Flush),
{
    let n = payload.len() + 4;
    lemma_header_of_short_length(n);
    let h = length_header(n);
    let p = packet(payload);
    assert(p[0] == h[0] && p[1] == h[1] && p[2] == h[2] && p[3] == h[3]);
    assert(p.subrange(4, n as int) =~= payload);
}

} // verus!
