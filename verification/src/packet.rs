//! Echo-request packet construction for IPv4 and IPv6.
//!
//! Both families share the layout of the leading bytes: the message type
//! in byte 0, a code in byte 1, and the checksum field big-endian in
//! bytes 2 and 3 (word index 1).  An ICMPv4 echo request additionally
//! carries an identifier and a sequence number in bytes 4 through 7; this
//! engine fixes both at zero and correlates replies temporally, not by
//! those fields.  Everything after the header is payload and is left as
//! the caller's buffer had it.

use vstd::prelude::*;
use crate::checksum::{
    checksum_spec, lemma_checksum_zeroes_sum, lemma_oc_sum_from_range, internet_checksum,
    oc_sum,
};
use crate::errors::PingError;
use crate::family::IpFamily;

verus! {

/// Size of the reusable buffer a probe session builds its packets into.
pub const PACKET_DATA_SIZE: usize = 64;

/// The fewest bytes an ICMPv4 echo request occupies: type, code,
/// checksum, identifier, sequence number.
pub const ICMPV4_ECHO_MIN_SIZE: usize = 8;

/// The fewest bytes an ICMPv6 packet occupies: type, code, checksum.
pub const ICMPV6_MIN_SIZE: usize = 4;

/// The ICMPv4 message type of an echo request.
pub const ICMPV4_ECHO_REQUEST_TYPE: u8 = 8;

/// The ICMPv6 message type of an echo request.
pub const ICMPV6_ECHO_REQUEST_TYPE: u8 = 128;

/// The word index of the checksum field, the same for both families.
pub const CHECKSUM_WORD_INDEX: usize = 1;

/// The fewest bytes a buffer must hold for an echo request of the given
/// family.
pub open spec fn min_packet_size(family: IpFamily) -> int {
    match family {
        IpFamily::V4 => ICMPV4_ECHO_MIN_SIZE as int,
        IpFamily::V6 => ICMPV6_MIN_SIZE as int,
    }
}

/// The message type byte an echo request of the given family carries.
pub open spec fn echo_request_type(family: IpFamily) -> u8 {
    match family {
        IpFamily::V4 => ICMPV4_ECHO_REQUEST_TYPE,
        IpFamily::V6 => ICMPV6_ECHO_REQUEST_TYPE,
    }
}

/// The bytes of an echo request built into `orig`, before the checksum is
/// written: the family's message type in byte 0, zeroes in the checksum
/// field and — for IPv4 — in the identifier and sequence fields; every
/// other byte, the payload included, as it was.
pub open spec fn echo_request_prepared(family: IpFamily, orig: Seq<u8>) -> Seq<u8> {
    match family {
        IpFamily::V4 => orig
            .update(0, ICMPV4_ECHO_REQUEST_TYPE)
            .update(2, 0u8)
            .update(3, 0u8)
            .update(4, 0u8)
            .update(5, 0u8)
            .update(6, 0u8)
            .update(7, 0u8),
        IpFamily::V6 => orig
            .update(0, ICMPV6_ECHO_REQUEST_TYPE)
            .update(2, 0u8)
            .update(3, 0u8),
    }
}

/// The finished echo request: the prepared bytes with the RFC 1071
/// checksum of themselves — their own checksum word skipped — written
/// big-endian into the checksum field.
pub open spec fn echo_request_bytes(family: IpFamily, orig: Seq<u8>) -> Seq<u8> {
    let prepared = echo_request_prepared(family, orig);
    let cs = checksum_spec(prepared, CHECKSUM_WORD_INDEX as int);
    prepared.update(2, (cs / 0x100) as u8).update(3, (cs % 0x100) as u8)
}

/// Build an echo request for `family` in place in `buf`.
///
/// Succeeds exactly when the buffer holds at least the family's minimum
/// packet size; the buffer then holds `echo_request_bytes` of its old
/// contents.  An undersized buffer is rejected as `BufferTooSmall` and
/// left untouched — in particular, no partial checksum is written.
pub fn build_echo_request(family: IpFamily, buf: &mut Vec<u8>) -> (r: Result<(), PingError>)
    ensures
        r is Ok <==> old(buf)@.len() >= min_packet_size(family),
        r is Ok ==> final(buf)@ == echo_request_bytes(family, old(buf)@),
        r is Err ==> final(buf)@ == old(buf)@ && r == Err::<(), PingError>(
            PingError::BufferTooSmall,
        ),
{
    let min: usize = match family {
        IpFamily::V4 => ICMPV4_ECHO_MIN_SIZE,
        IpFamily::V6 => ICMPV6_MIN_SIZE,
    };
    if buf.len() < min {
        return Err(PingError::BufferTooSmall);
    }
    match family {
        IpFamily::V4 => {
            buf[0] = ICMPV4_ECHO_REQUEST_TYPE;
            buf[2] = 0;
            buf[3] = 0;
            buf[4] = 0;
            buf[5] = 0;
            buf[6] = 0;
            buf[7] = 0;
        }
        IpFamily::V6 => {
            buf[0] = ICMPV6_ECHO_REQUEST_TYPE;
            buf[2] = 0;
            buf[3] = 0;
        }
    }
    proof {
        assert(buf@ =~= echo_request_prepared(family, old(buf)@));
    }
    let cs = internet_checksum(buf, CHECKSUM_WORD_INDEX);
    proof {
        lemma_oc_sum_from_range(buf@, 0, CHECKSUM_WORD_INDEX as int);
    }
    buf[2] = (cs / 0x100) as u8;
    buf[3] = (cs % 0x100) as u8;
    proof {
        assert(buf@ =~= echo_request_bytes(family, old(buf)@));
    }
    Ok(())
}

/// For any packet the builder produces, the one's-complement sum of the
/// full packet — checksum field included, nothing skipped — is the
/// all-ones word `0xFFFF`, negative zero in one's-complement arithmetic:
/// the complemented sum of the packet is zero, which is exactly what a
/// receiver verifies.
pub proof fn lemma_built_packet_sums_to_zero(family: IpFamily, orig: Seq<u8>)
    requires
        orig.len() >= min_packet_size(family),
    ensures
        oc_sum(echo_request_bytes(family, orig), -1) == 0xFFFF,
        checksum_spec(echo_request_bytes(family, orig), -1) == 0,
{
    let prepared = echo_request_prepared(family, orig);
    let built = echo_request_bytes(family, orig);
    let cs = checksum_spec(prepared, 1);
    lemma_oc_sum_from_range(prepared, 0, 1);
    assert(0 <= cs / 0x100 < 0x100);
    assert(0 <= cs % 0x100 < 0x100);
    lemma_checksum_zeroes_sum(prepared, built, 1);
}

} // verus!
