//! Decoder for the radio's serial wire format: fixed 25-byte frames that
//! pack 16 channels of 11-bit values, little-endian bit order, followed by
//! a flags byte and an end-of-frame marker.

use vstd::prelude::*;

verus! {

use vstd::arithmetic::power2::{lemma2_to64, lemma_pow2_adds, lemma_pow2_strictly_increases, pow2};

/// Length of one wire frame in bytes.
pub const FRAME_LEN: usize = 25;

/// First byte of every valid frame.
pub const FRAME_HEADER: u8 = 0x0F;

/// The end-of-frame markers the protocol allows (the plain footer and the
/// telemetry-slot variants).
pub open spec fn is_frame_end_spec(b: u8) -> bool {
    b == 0x00 || b == 0x04 || b == 0x14 || b == 0x24 || b == 0x34
}

/// A frame is valid when it has the right length, the header byte, and one
/// of the accepted end markers.
pub open spec fn valid_frame(frame: Seq<u8>) -> bool {
    &&& frame.len() == FRAME_LEN
    &&& frame[0] == FRAME_HEADER
    &&& is_frame_end_spec(frame[24])
}

/// Bit `k` of the little-endian channel bit stream, which runs through
/// bytes 1 to 22 of the frame, least significant bit of each byte first.
pub open spec fn stream_bit(frame: Seq<u8>, k: int) -> int
    recommends
        0 <= k < 176,
        frame.len() == FRAME_LEN,
{
    (frame[1 + k / 8] as int / pow2((k % 8) as nat) as int) % 2
}

/// The low `t` bits of channel `i`, weighted little-endian.
pub open spec fn channel_bits(frame: Seq<u8>, i: int, t: int) -> int
    recommends
        0 <= i < 16,
        0 <= t <= 11,
        frame.len() == FRAME_LEN,
    decreases t,
{
    if t <= 0 {
        0
    } else {
        channel_bits(frame, i, t - 1) + stream_bit(frame, 11 * i + (t - 1)) * pow2(
            (t - 1) as nat,
        ) as int
    }
}

/// The full 11-bit value of channel `i`.
pub open spec fn channel_spec(frame: Seq<u8>, i: int) -> int
    recommends
        0 <= i < 16,
        frame.len() == FRAME_LEN,
{
    channel_bits(frame, i, 11)
}

/// Bit `j` of the flags byte (byte 23) is set.
pub open spec fn flag_bit(frame: Seq<u8>, j: nat) -> bool
    recommends
        j < 8,
        frame.len() == FRAME_LEN,
{
    (frame[23] as int / pow2(j) as int) % 2 == 1
}

/// One decoded frame: 16 raw channel values plus the digital channels and
/// link-status flags.
#[derive(Clone, Copy, Debug)]
pub struct SbusData {
    pub channels: [u16; 16],
    pub channel17: bool,
    pub channel18: bool,
    pub frame_lost: bool,
    pub failsafe: bool,
}

/// Whether `b` is one of the accepted end-of-frame markers.
pub fn is_frame_end(b: u8) -> (r: bool)
    ensures
        r == is_frame_end_spec(b),
{
    b == 0x00 || b == 0x04 || b == 0x14 || b == 0x24 || b == 0x34
}

/// `2^sh` for a shift inside one byte.
fn pow2_u8(sh: usize) -> (r: u8)
    requires
        sh < 8,
    ensures
        r as nat == pow2(sh as nat),
        r >= 1,
{
    proof {
        lemma2_to64();
    }
    match sh {
        0 => 1,
        1 => 2,
        2 => 4,
        3 => 8,
        4 => 16,
        5 => 32,
        6 => 64,
        _ => 128,
    }
}

/// The 11-bit value of channel `i`, extracted bit by bit from the frame.
fn channel_at(frame: &[u8; 25], i: usize) -> (r: u16)
    requires
        i < 16,
    ensures
        r as int == channel_spec(frame@, i as int),
        r < 2048,
{
    let mut acc: u16 = 0;
    let mut p: u16 = 1;
    let mut t: usize = 0;
    proof {
        lemma2_to64();
    }
    while t < 11
        invariant
            i < 16,
            t <= 11,
            p as nat == pow2(t as nat),
            acc < p,
            acc as int == channel_bits(frame@, i as int, t as int),
        decreases 11 - t,
    {
        proof {
            lemma2_to64();
            lemma_pow2_strictly_increases(t as nat, 11);
        }
        let k: usize = 11 * i + t;
        let idx: usize = 1 + k / 8;
        let sh: usize = k % 8;
        proof {
            assert(k < 176);
            assert(k / 8 <= 21) by {
                assert(k / 8 < 22) by (nonlinear_arith)
                    requires
                        0 <= k < 176,
                ;
            }
        }
        let p2: u8 = pow2_u8(sh);
        let bit: u16 = ((frame[idx] / p2) % 2) as u16;
        proof {
            lemma_pow2_adds(t as nat, 1);
            assert(bit as int == stream_bit(frame@, 11 * (i as int) + (t as int)));
            assert(bit * p <= p) by (nonlinear_arith)
                requires
                    bit <= 1,
                    p >= 0,
            ;
        }
        acc = acc + bit * p;
        p = p * 2;
        t = t + 1;
    }
    proof {
        lemma2_to64();
    }
    acc
}

/// Decodes one 25-byte wire frame. Returns the channel values and flags
/// when the frame is well formed, and nothing when the header or the end
/// marker is wrong — a malformed frame yields no channel update.
pub fn decode_frame(frame: &[u8; 25]) -> (r: Option<SbusData>)
    ensures
        r is Some <==> valid_frame(frame@),
        r is Some ==> forall|i: int|
            0 <= i < 16 ==> #[trigger] (r->Some_0.channels@[i] as int) == channel_spec(frame@, i)
                && r->Some_0.channels@[i] < 2048,
        r is Some ==> r->Some_0.channel17 == flag_bit(frame@, 7)
            && r->Some_0.channel18 == flag_bit(frame@, 6)
            && r->Some_0.frame_lost == flag_bit(frame@, 5)
            && r->Some_0.failsafe == flag_bit(frame@, 4),
{
    if frame[0] != FRAME_HEADER {
        return None;
    }
    if !is_frame_end(frame[24]) {
        return None;
    }
    let mut channels: [u16; 16] = [0u16; 16];
    let mut i: usize = 0;
    while i < 16
        invariant
            i <= 16,
            forall|j: int|
                0 <= j < i ==> #[trigger] (channels@[j] as int) == channel_spec(frame@, j)
                    && channels@[j] < 2048,
        decreases 16 - i,
    {
        channels[i] = channel_at(frame, i);
        i = i + 1;
    }
    let flags: u8 = frame[23];
    proof {
        lemma2_to64();
    }
    let channel17: bool = (flags / 128) % 2 == 1;
    let channel18: bool = (flags / 64) % 2 == 1;
    let frame_lost: bool = (flags / 32) % 2 == 1;
    let failsafe: bool = (flags / 16) % 2 == 1;
    Some(SbusData { channels, channel17, channel18, frame_lost, failsafe })
}

} // verus!
