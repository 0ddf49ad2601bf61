use vstd::prelude::*;

verus! {

/// The length of a canonical magic packet: a six-byte header and sixteen copies
/// of a six-byte hardware address. Shorter datagrams are never accepted.
pub const MAGIC_PACKET_LEN: usize = 102;

/// The byte that fills a magic packet's header.
pub const HEADER_BYTE: u8 = 0xFF;

/// The first six bytes of `d` are all `0xFF`.
pub open spec fn header_ok(d: Seq<u8>) -> bool {
    forall|i: int| 0 <= i < 6 ==> d[i] == HEADER_BYTE
}

/// Bytes 6 to 11 of `d` are the address `mac`.
pub open spec fn address_ok(d: Seq<u8>, mac: Seq<u8>) -> bool {
    forall|i: int| 0 <= i < 6 ==> d[6 + i] == mac[i]
}

/// `d` is accepted as a magic packet for `mac`: it is at least 102 bytes long,
/// starts with six `0xFF` bytes and then holds `mac`. Later bytes, including the
/// remaining copies of the address, are not inspected.
pub open spec fn is_magic_packet(d: Seq<u8>, mac: Seq<u8>) -> bool {
    &&& d.len() >= MAGIC_PACKET_LEN
    &&& header_ok(d)
    &&& address_ok(d, mac)
}

/// Decides whether the datagram `datagram` wakes the host whose hardware
/// address is `expected`.
pub fn validate(datagram: &[u8], expected: &[u8; 6]) -> (r: bool)
    ensures
        r == is_magic_packet(datagram@, expected@),
{
    if datagram.len() < MAGIC_PACKET_LEN {
        return false;
    }
    let mut i: usize = 0;
    while i < 6
        invariant
            datagram@.len() >= MAGIC_PACKET_LEN,
            i <= 6,
            forall|k: int| 0 <= k < i ==> datagram@[k] == HEADER_BYTE,
        decreases 6 - i,
    {
        if datagram[i] != HEADER_BYTE {
            return false;
        }
        i = i + 1;
    }
    let mut j: usize = 0;
    while j < 6
        invariant
            datagram@.len() >= MAGIC_PACKET_LEN,
            expected@.len() == 6,
            j <= 6,
            header_ok(datagram@),
            forall|k: int| 0 <= k < j ==> datagram@[6 + k] == expected@[k],
        decreases 6 - j,
    {
        if datagram[6 + j] != expected[j] {
            return false;
        }
        j = j + 1;
    }
    true
}

/// A datagram shorter than 102 bytes is never a magic packet, whatever it holds.
pub proof fn lemma_short_datagram_rejected(d: Seq<u8>, mac: Seq<u8>)
    requires
        d.len() < MAGIC_PACKET_LEN,
    ensures
        !is_magic_packet(d, mac),
{
}

/// A datagram of at least 102 bytes whose first six bytes are not all `0xFF` is
/// not a magic packet.
pub proof fn lemma_bad_header_rejected(d: Seq<u8>, mac: Seq<u8>)
    requires
        d.len() >= MAGIC_PACKET_LEN,
        exists|i: int| 0 <= i < 6 && d[i] != HEADER_BYTE,
    ensures
        !is_magic_packet(d, mac),
{
}

/// A datagram of at least 102 bytes with a valid header followed by the expected
/// address is a magic packet, whatever its later bytes hold.
pub proof fn lemma_header_and_address_accepted(d: Seq<u8>, mac: Seq<u8>)
    requires
        mac.len() == 6,
        d.len() >= MAGIC_PACKET_LEN,
        forall|i: int| 0 <= i < 6 ==> d[i] == HEADER_BYTE,
        d.subrange(6, 12) == mac,
    ensures
        is_magic_packet(d, mac),
{
    assert forall|i: int| 0 <= i < 6 implies d[6 + i] == mac[i] by {
        assert(d.subrange(6, 12)[i] == d[6 + i]);
    }
}

/// Changing bytes from index 12 on, while keeping the length, never changes
/// whether a datagram is a magic packet.
pub proof fn lemma_trailing_bytes_ignored(d1: Seq<u8>, d2: Seq<u8>, mac: Seq<u8>)
    requires
        d1.len() == d2.len(),
        d1.len() >= 12,
        d1.take(12) == d2.take(12),
    ensures
        is_magic_packet(d1, mac) == is_magic_packet(d2, mac),
{
    assert forall|i: int| 0 <= i < 12 implies d1[i] == d2[i] by {
        assert(d1.take(12)[i] == d1[i]);
        assert(d2.take(12)[i] == d2[i]);
    }
}

/// A datagram with a valid header whose bytes 6 to 11 differ from the expected
/// address in at least one place is not a magic packet.
pub proof fn lemma_wrong_address_rejected(d: Seq<u8>, mac: Seq<u8>)
    requires
        mac.len() == 6,
        forall|i: int| 0 <= i < 6 ==> d[i] == HEADER_BYTE,
        exists|i: int| 0 <= i < 6 && d[6 + i] != mac[i],
    ensures
        !is_magic_packet(d, mac),
{
}

} // verus!
