//! Link statistics as the kernel lays them out (`struct rtnl_link_stats`):
//! twenty-four 32-bit counters in the machine's byte order.
use vstd::prelude::*;
use vstd::slice::slice_subrange;
use byteorder::{ByteOrder, NativeEndian};

verus! {

/// The counters of one link.
#[derive(Debug, Clone, Copy, PartialEq, Eq)]
pub struct LinkStats<T> {
    /// total packets received
    pub rx_packets: T,
    /// total packets transmitted
    pub tx_packets: T,
    /// total bytes received
    pub rx_bytes: T,
    /// total bytes transmitted
    pub tx_bytes: T,
    /// bad packets received
    pub rx_errors: T,
    /// packet transmit problems
    pub tx_errors: T,
    /// no space in linux buffers
    pub rx_dropped: T,
    /// no space available in linux
    pub tx_dropped: T,
    /// multicast packets received
    pub multicast: T,
    /// collisions
    pub collisions: T,
    /// detailed rx_errors
    pub rx_length_errors: T,
    /// receiver ring buff overflow
    pub rx_over_errors: T,
    /// received packets with crc error
    pub rx_crc_errors: T,
    /// received frame alignment errors
    pub rx_frame_errors: T,
    /// recv'r fifo overrun
    pub rx_fifo_errors: T,
    /// receiver missed packet
    pub rx_missed_errors: T,
    /// detailed tx_errors
    pub tx_aborted_errors: T,
    /// tx carrier errors
    pub tx_carrier_errors: T,
    /// tx fifo errors
    pub tx_fifo_errors: T,
    /// tx heartbeat errors
    pub tx_heartbeat_errors: T,
    /// tx window errors
    pub tx_window_errors: T,
    /// for cslip etc
    pub rx_compressed: T,
    /// for cslip etc
    pub tx_compressed: T,
    /// dropped, no handler found
    pub rx_nohandler: T,
}

/// The length of the 32-bit layout in bytes.
pub const LINK_STATS32_LEN: usize = 96;

/// A buffer too short for the 32-bit layout.
#[derive(Clone, Copy, Debug, PartialEq, Eq, Structural)]
pub struct LinkStatsError {
    /// The length the layout needs.
    pub expected: usize,
    /// The length of the buffer given.
    pub actual: usize,
}

/// The first four bytes of `b` read as a little-endian number.
pub open spec fn u32_le(b: Seq<u8>) -> int {
    b[0] as int + b[1] as int * 256 + b[2] as int * 65536 + b[3] as int * 16777216
}

/// The first four bytes of `b` read as a big-endian number.
pub open spec fn u32_be(b: Seq<u8>) -> int {
    b[3] as int + b[2] as int * 256 + b[1] as int * 65536 + b[0] as int * 16777216
}

/// `v` is the `k`-th 32-bit word of `buf`, read in one byte order or the
/// other (the machine's own).
pub open spec fn is_word_at(buf: Seq<u8>, k: int, v: u32) -> bool {
    let b = buf.subrange(4 * k, 4 * k + 4);
    v == u32_le(b) || v == u32_be(b)
}

/// Relies on byteorder's `NativeEndian::read_u32`: the first four bytes of
/// `buf` as a `u32` in the machine's byte order, which is little- or
/// big-endian; it panics on fewer than four bytes.
#[verifier::external_body]
fn read_native_u32(buf: &[u8]) -> (r: u32)
    requires
        buf@.len() >= 4,
    ensures
        r == u32_le(buf@) || r == u32_be(buf@),
{
    NativeEndian::read_u32(buf)
}

/// The `k`-th 32-bit word of `buf`.
fn word(buf: &[u8], k: usize) -> (r: u32)
    requires
        k < 24,
        4 * k + 4 <= buf@.len(),
    ensures
        is_word_at(buf@, k as int, r),
{
    read_native_u32(slice_subrange(buf, 4 * k, 4 * k + 4))
}

impl LinkStats<u32> {
    /// Each counter is the word at its position in `buf`.
    pub open spec fn matches_bytes(&self, buf: Seq<u8>) -> bool {
        &&& is_word_at(buf, 0, self.rx_packets)
        &&& is_word_at(buf, 1, self.tx_packets)
        &&& is_word_at(buf, 2, self.rx_bytes)
        &&& is_word_at(buf, 3, self.tx_bytes)
        &&& is_word_at(buf, 4, self.rx_errors)
        &&& is_word_at(buf, 5, self.tx_errors)
        &&& is_word_at(buf, 6, self.rx_dropped)
        &&& is_word_at(buf, 7, self.tx_dropped)
        &&& is_word_at(buf, 8, self.multicast)
        &&& is_word_at(buf, 9, self.collisions)
        &&& is_word_at(buf, 10, self.rx_length_errors)
        &&& is_word_at(buf, 11, self.rx_over_errors)
        &&& is_word_at(buf, 12, self.rx_crc_errors)
        &&& is_word_at(buf, 13, self.rx_frame_errors)
        &&& is_word_at(buf, 14, self.rx_fifo_errors)
        &&& is_word_at(buf, 15, self.rx_missed_errors)
        &&& is_word_at(buf, 16, self.tx_aborted_errors)
        &&& is_word_at(buf, 17, self.tx_carrier_errors)
        &&& is_word_at(buf, 18, self.tx_fifo_errors)
        &&& is_word_at(buf, 19, self.tx_heartbeat_errors)
        &&& is_word_at(buf, 20, self.tx_window_errors)
        &&& is_word_at(buf, 21, self.rx_compressed)
        &&& is_word_at(buf, 22, self.tx_compressed)
        &&& is_word_at(buf, 23, self.rx_nohandler)
    }

    /// Parses the 32-bit layout from the front of `buf`; a buffer shorter
    /// than the layout is refused.
    pub fn from_bytes(buf: &[u8]) -> (r: Result<LinkStats<u32>, LinkStatsError>)
        ensures
            r is Err <==> buf@.len() < LINK_STATS32_LEN,
            r matches Err(e) ==> e.expected == LINK_STATS32_LEN && e.actual == buf@.len(),
            r matches Ok(s) ==> s.matches_bytes(buf@),
    {
        if buf.len() < LINK_STATS32_LEN {
            return Err(LinkStatsError { expected: LINK_STATS32_LEN, actual: buf.len() });
        }
        Ok(LinkStats {
            rx_packets: word(buf, 0),
            tx_packets: word(buf, 1),
            rx_bytes: word(buf, 2),
            tx_bytes: word(buf, 3),
            rx_errors: word(buf, 4),
            tx_errors: word(buf, 5),
            rx_dropped: word(buf, 6),
            tx_dropped: word(buf, 7),
            multicast: word(buf, 8),
            collisions: word(buf, 9),
            rx_length_errors: word(buf, 10),
            rx_over_errors: word(buf, 11),
            rx_crc_errors: word(buf, 12),
            rx_frame_errors: word(buf, 13),
            rx_fifo_errors: word(buf, 14),
            rx_missed_errors: word(buf, 15),
            tx_aborted_errors: word(buf, 16),
            tx_carrier_errors: word(buf, 17),
            tx_fifo_errors: word(buf, 18),
            tx_heartbeat_errors: word(buf, 19),
            tx_window_errors: word(buf, 20),
            rx_compressed: word(buf, 21),
            tx_compressed: word(buf, 22),
            rx_nohandler: word(buf, 23),
        })
    }
}

} // verus!
