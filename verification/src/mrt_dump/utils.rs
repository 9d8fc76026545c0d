use vstd::prelude::*;
use byteorder::{BigEndian, ByteOrder};
use crate::models::network::{Asn, AsnLength, IpAddress, NetworkPrefix};
use crate::mrt_dump::encoding::{put_bytes, Encoded};
use crate::mrt_dump::error::DumpError;

verus! {

/// The two octets of `v`, high octet first.
pub open spec fn be16(v: u16) -> Seq<u8> {
    seq![(v / 256) as u8, (v % 256) as u8]
}

/// The four octets of `v`, highest octet first.
pub open spec fn be32(v: u32) -> Seq<u8> {
    seq![
        (v / 0x100_0000) as u8,
        ((v / 0x1_0000) % 256) as u8,
        ((v / 0x100) % 256) as u8,
        (v % 256) as u8,
    ]
}

/// The sixteen octets of `v`, highest octet first.
pub open spec fn be128(v: u128) -> Seq<u8> {
    be32((v / 0x1_0000_0000_0000_0000_0000_0000) as u32)
        + be32(((v / 0x1_0000_0000_0000_0000) % 0x1_0000_0000) as u32)
        + be32(((v / 0x1_0000_0000) % 0x1_0000_0000) as u32)
        + be32((v % 0x1_0000_0000) as u32)
}

/// The octets of an address: four for version 4, sixteen for version 6.
pub open spec fn ip_bytes(addr: IpAddress) -> Seq<u8> {
    match addr {
        IpAddress::V4(a) => be32(a),
        IpAddress::V6(a) => be128(a),
    }
}

/// The octets of an AS number: two or four, as its width says. In two
/// octets only the low sixteen bits of the number are written.
pub open spec fn asn_bytes(asn: Asn) -> Seq<u8> {
    match asn.len {
        AsnLength::Bits16 => be16((asn.asn % 0x1_0000) as u16),
        AsnLength::Bits32 => be32(asn.asn),
    }
}

/// The number of octets that hold `bits` leading bits.
pub open spec fn prefix_octets(bits: u8) -> int {
    (bits + 7) / 8
}

/// The octet that keeps the `bits` highest bits of an octet and clears the
/// rest; for `bits` outside 1..7, the octet that keeps all eight.
pub open spec fn spec_high_bits(bits: u8) -> u8 {
    if bits == 1 {
        0x80
    } else if bits == 2 {
        0xC0
    } else if bits == 3 {
        0xE0
    } else if bits == 4 {
        0xF0
    } else if bits == 5 {
        0xF8
    } else if bits == 6 {
        0xFC
    } else if bits == 7 {
        0xFE
    } else {
        0xFF
    }
}

/// The weight of the lowest of the `bits` highest bits of an octet; for
/// `bits` outside 1..7, one.
pub open spec fn low_weight(bits: u8) -> u8 {
    if bits == 1 {
        128
    } else if bits == 2 {
        64
    } else if bits == 3 {
        32
    } else if bits == 4 {
        16
    } else if bits == 5 {
        8
    } else if bits == 6 {
        4
    } else if bits == 7 {
        2
    } else {
        1
    }
}

/// What `spec_high_bits` lets through of an octet has the `bits` highest
/// bits of the octet and nothing below them.
pub proof fn lemma_high_bits(x: u8, bits: u8)
    ensures
        (x & spec_high_bits(bits)) / low_weight(bits) == x / low_weight(bits),
        (x & spec_high_bits(bits)) % low_weight(bits) == 0,
{
    if bits == 1 {
        assert((x & 0x80) / 128 == x / 128 && (x & 0x80) % 128 == 0) by (bit_vector);
    } else if bits == 2 {
        assert((x & 0xC0) / 64 == x / 64 && (x & 0xC0) % 64 == 0) by (bit_vector);
    } else if bits == 3 {
        assert((x & 0xE0) / 32 == x / 32 && (x & 0xE0) % 32 == 0) by (bit_vector);
    } else if bits == 4 {
        assert((x & 0xF0) / 16 == x / 16 && (x & 0xF0) % 16 == 0) by (bit_vector);
    } else if bits == 5 {
        assert((x & 0xF8) / 8 == x / 8 && (x & 0xF8) % 8 == 0) by (bit_vector);
    } else if bits == 6 {
        assert((x & 0xFC) / 4 == x / 4 && (x & 0xFC) % 4 == 0) by (bit_vector);
    } else if bits == 7 {
        assert((x & 0xFE) / 2 == x / 2 && (x & 0xFE) % 2 == 0) by (bit_vector);
    } else {
        assert(x & 0xFF == x) by (bit_vector);
    }
}

/// The octets of a network of `bits` bits at the head of `octets`: as many
/// whole octets as the bits fill, and the bits of the last one that lie
/// beyond the prefix cleared.
pub open spec fn network_octets(octets: Seq<u8>, bits: u8) -> Seq<u8> {
    Seq::new(
        prefix_octets(bits) as nat,
        |i: int|
            if i == prefix_octets(bits) - 1 {
                octets[i] & spec_high_bits(bits % 8)
            } else {
                octets[i]
            },
    )
}

/// The wire form of a prefix: the path identifier where `add_path` asks for
/// it, the length in bits, then the octets of the network. A length beyond
/// what the address family allows is malformed.
pub open spec fn nlri_bytes(nlri: NetworkPrefix, add_path: bool) -> Encoded {
    if nlri.prefix.prefix > nlri.prefix.max_prefix() {
        Err(DumpError::MalformedInput)
    } else {
        Ok(
            (if add_path {
                be32(nlri.path_id)
            } else {
                Seq::<u8>::empty()
            }) + seq![nlri.prefix.prefix] + network_octets(
                ip_bytes(nlri.prefix.addr),
                nlri.prefix.prefix,
            ),
        )
    }
}

/// A prefix is written if and only if its length is one that its address
/// family allows, and then takes one octet for the length, the octets that
/// the bits of the prefix fill, and four more with a path identifier.
pub proof fn lemma_nlri_len(nlri: NetworkPrefix, add_path: bool)
    ensures
        nlri_bytes(nlri, add_path) is Ok <==> nlri.prefix.prefix <= nlri.prefix.max_prefix(),
        nlri_bytes(nlri, add_path) matches Ok(bytes) ==> bytes.len() == 1 + (nlri.prefix.prefix
            + 7) / 8 + if add_path {
            4int
        } else {
            0int
        },
{
}

/// `byteorder::BigEndian::write_u16` on a buffer of two octets: the buffer
/// then holds the big-endian form of `v`.
#[verifier::external_body]
fn u16_octets(v: u16) -> (r: [u8; 2])
    ensures
        r@ == be16(v),
{
    let mut buf = [0u8; 2];
    BigEndian::write_u16(&mut buf, v);
    buf
}

/// `byteorder::BigEndian::write_u32` on a buffer of four octets: the buffer
/// then holds the big-endian form of `v`.
#[verifier::external_body]
fn u32_octets(v: u32) -> (r: [u8; 4])
    ensures
        r@ == be32(v),
{
    let mut buf = [0u8; 4];
    BigEndian::write_u32(&mut buf, v);
    buf
}

/// The number that the four octets of an IPv4 address spell, high octet
/// first.
pub fn ipv4_to_u32(ip: &[u8; 4]) -> (r: u32)
    ensures
        r == ip[0] * 0x100_0000 + ip[1] * 0x1_0000 + ip[2] * 0x100 + ip[3],
        be32(r) == ip@,
{
    let r: u32 = (ip[0] as u32) * 0x100_0000 + (ip[1] as u32) * 0x1_0000 + (ip[2] as u32) * 0x100
        + (ip[3] as u32);
    proof {
        lemma_be32_of_octets(ip[0], ip[1], ip[2], ip[3]);
        assert(be32(r) =~= ip@);
    }
    r
}

/// The four octets of the number that four octets spell are those octets.
pub proof fn lemma_be32_of_octets(a: u8, b: u8, c: u8, d: u8)
    ensures
        be32((a * 0x100_0000 + b * 0x1_0000 + c * 0x100 + d) as u32) == seq![a, b, c, d],
{
    let v: int = a * 0x100_0000 + b * 0x1_0000 + c * 0x100 + d;
    assert(v / 0x100_0000 == a) by (nonlinear_arith)
        requires
            v == a * 0x100_0000 + b * 0x1_0000 + c * 0x100 + d,
            0 <= a < 256,
            0 <= b < 256,
            0 <= c < 256,
            0 <= d < 256,
    ;
    assert((v / 0x1_0000) % 256 == b) by (nonlinear_arith)
        requires
            v == a * 0x100_0000 + b * 0x1_0000 + c * 0x100 + d,
            0 <= a < 256,
            0 <= b < 256,
            0 <= c < 256,
            0 <= d < 256,
    ;
    assert((v / 0x100) % 256 == c) by (nonlinear_arith)
        requires
            v == a * 0x100_0000 + b * 0x1_0000 + c * 0x100 + d,
            0 <= a < 256,
            0 <= b < 256,
            0 <= c < 256,
            0 <= d < 256,
    ;
    assert(v % 256 == d) by (nonlinear_arith)
        requires
            v == a * 0x100_0000 + b * 0x1_0000 + c * 0x100 + d,
            0 <= a < 256,
            0 <= b < 256,
            0 <= c < 256,
            0 <= d < 256,
    ;
    assert(be32(v as u32) =~= seq![a, b, c, d]);
}

/// The octet that keeps the `bits` highest bits of an octet.
fn high_bits(bits: u8) -> (r: u8)
    ensures
        r == spec_high_bits(bits),
{
    if bits == 1 {
        0x80
    } else if bits == 2 {
        0xC0
    } else if bits == 3 {
        0xE0
    } else if bits == 4 {
        0xF0
    } else if bits == 5 {
        0xF8
    } else if bits == 6 {
        0xFC
    } else if bits == 7 {
        0xFE
    } else {
        0xFF
    }
}

/// The octets of an address as a vector.
pub fn ip_octets(addr: &IpAddress) -> (r: Vec<u8>)
    ensures
        r@ == ip_bytes(*addr),
{
    let mut r: Vec<u8> = Vec::new();
    match addr {
        IpAddress::V4(a) => {
            let o = u32_octets(*a);
            put_bytes(&mut r, o.as_slice());
        },
        IpAddress::V6(a) => {
            let first = u32_octets((*a / 0x1_0000_0000_0000_0000_0000_0000) as u32);
            let second = u32_octets(((*a / 0x1_0000_0000_0000_0000) % 0x1_0000_0000) as u32);
            let third = u32_octets(((*a / 0x1_0000_0000) % 0x1_0000_0000) as u32);
            let fourth = u32_octets((*a % 0x1_0000_0000) as u32);
            put_bytes(&mut r, first.as_slice());
            put_bytes(&mut r, second.as_slice());
            put_bytes(&mut r, third.as_slice());
            put_bytes(&mut r, fourth.as_slice());
        },
    }
    assert(r@ =~= ip_bytes(*addr));
    r
}

/// The writing operations of the encoders, on a sink that only grows.
pub trait WriteUtils {
    /// All that has been written to the sink.
    spec fn written(&self) -> Seq<u8>;

    /// Appends `v` as two octets, high octet first.
    fn write_16b(&mut self, v: u16) -> (r: Result<(), DumpError>)
        ensures
            r is Ok,
            final(self).written() == old(self).written() + be16(v),
    ;

    /// Appends `v` as four octets, highest octet first.
    fn write_32b(&mut self, v: u32) -> (r: Result<(), DumpError>)
        ensures
            r is Ok,
            final(self).written() == old(self).written() + be32(v),
    ;

    /// Appends the octets of `addr`, with no length in front.
    fn write_ip(&mut self, addr: &IpAddress) -> (r: Result<(), DumpError>)
        ensures
            r is Ok,
            final(self).written() == old(self).written() + ip_bytes(*addr),
    ;

    /// Appends `asn` in the width that it names.
    fn write_asn(&mut self, asn: &Asn) -> (r: Result<(), DumpError>)
        ensures
            r is Ok,
            final(self).written() == old(self).written() + asn_bytes(*asn),
    ;

    /// Appends the wire form of `nlri`, or fails and writes nothing.
    fn write_nlri(&mut self, nlri: &NetworkPrefix, add_path: bool) -> (r: Result<(), DumpError>)
        ensures
            match nlri_bytes(*nlri, add_path) {
                Ok(bytes) => r is Ok && final(self).written() == old(self).written() + bytes,
                Err(e) => r == Err::<(), DumpError>(e) && final(self).written() == old(
                    self,
                ).written(),
            },
    ;
}

impl WriteUtils for Vec<u8> {
    open spec fn written(&self) -> Seq<u8> {
        self@
    }

    fn write_16b(&mut self, v: u16) -> (r: Result<(), DumpError>) {
        let o = u16_octets(v);
        put_bytes(self, o.as_slice());
        Ok(())
    }

    fn write_32b(&mut self, v: u32) -> (r: Result<(), DumpError>) {
        let o = u32_octets(v);
        put_bytes(self, o.as_slice());
        Ok(())
    }

    fn write_ip(&mut self, addr: &IpAddress) -> (r: Result<(), DumpError>) {
        let o = ip_octets(addr);
        put_bytes(self, o.as_slice());
        Ok(())
    }

    fn write_asn(&mut self, asn: &Asn) -> (r: Result<(), DumpError>) {
        match asn.len {
            AsnLength::Bits16 => self.write_16b((asn.asn % 0x1_0000) as u16),
            AsnLength::Bits32 => self.write_32b(asn.asn),
        }
    }

    fn write_nlri(&mut self, nlri: &NetworkPrefix, add_path: bool) -> (r: Result<(), DumpError>) {
        let bits: u8 = nlri.prefix.prefix;
        let max: u8 = if nlri.prefix.addr.is_ipv4() {
            32
        } else {
            128
        };
        if bits > max {
            return Err(DumpError::MalformedInput);
        }
        if add_path {
            let _ = self.write_32b(nlri.path_id);
        }
        self.push(bits);
        let octets = ip_octets(&nlri.prefix.addr);
        let count: usize = (bits as usize + 7) / 8;
        let ghost head = self@;
        let ghost want = network_octets(ip_bytes(nlri.prefix.addr), bits);
        let mut i: usize = 0;
        while i < count
            invariant
                i <= count,
                count == prefix_octets(bits),
                count <= octets@.len(),
                octets@ == ip_bytes(nlri.prefix.addr),
                want == network_octets(ip_bytes(nlri.prefix.addr), bits),
                self@ == head + want.take(i as int),
            decreases count - i,
        {
            let b: u8 = if i == count - 1 {
                octets[i] & high_bits(bits % 8)
            } else {
                octets[i]
            };
            self.push(b);
            i = i + 1;
            assert(self@ =~= head + want.take(i as int));
        }
        assert(want.take(i as int) =~= want);
        assert(self@ =~= old(self)@ + nlri_bytes(*nlri, add_path)->Ok_0);
        Ok(())
    }
}

} // verus!
