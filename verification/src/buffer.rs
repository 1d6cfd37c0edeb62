//! The per-key color buffer and its serialization into the packetized byte
//! layout the LED device expects.
//!
//! The layout has two stages. First a logical byte array: the fixed header,
//! then the channels of each group of [`KEY_PACKET_SIZE`] keys (all reds of
//! the group, then all greens, then all blues). Second the packetization:
//! every logical byte at offset `idx` is relocated to physical offset
//! `(idx + 1) + idx / BITE_PACKET_SIZE`, which inserts one zero byte before
//! every [`BITE_PACKET_SIZE`]-byte block.

use vstd::arithmetic::div_mod::lemma_div_is_ordered;
use vstd::arithmetic::div_mod::lemma_fundamental_div_mod;
use vstd::arithmetic::div_mod::lemma_fundamental_div_mod_converse_div;
use vstd::arithmetic::div_mod::lemma_fundamental_div_mod_converse_mod;
use vstd::prelude::*;

use crate::color::Color;
use crate::reports;

verus! {

/// Number of per-key color slots in the buffer, one per light code.
pub const NUMBER_KEY_LED_BUFFER: usize = 144;

/// Keys per layout sub-group: the logical layout stores all reds of such a
/// group, then all its greens, then all its blues.
pub const KEY_PACKET_SIZE: usize = 12;

/// Payload bytes per physical packet, excluding its leading zero byte.
pub const BITE_PACKET_SIZE: usize = 64;

/// Size of the logical byte array: the header followed by three channel
/// bytes per key.
pub const BUFFER_SIZE_RAW: usize = reports::LED_FEATURE_REPORT_HEAD_LEN + NUMBER_KEY_LED_BUFFER
    * 3;

/// Total size of the physical buffer: the smallest multiple of
/// `BITE_PACKET_SIZE + 1` strictly greater than the physical offset of the
/// last logical byte ([`lemma_buffer_size_packeted_formula`] proves both).
pub const BUFFER_SIZE_PACKETED: usize = 455;

/// Physical offset of the logical byte at offset `index`: one zero byte is
/// inserted before every `packet_size`-byte block.
pub open spec fn spec_packeted_index(index: int, packet_size: int) -> int
    recommends
        packet_size > 0,
{
    (index + 1) + index / packet_size
}

/// Logical offset at which the red channel of key `i` is written.
pub open spec fn spec_raw_index_red(i: int) -> int {
    reports::LED_FEATURE_REPORT_HEAD_LEN + i % (KEY_PACKET_SIZE as int) + 3 * (
    KEY_PACKET_SIZE as int) * (i / (KEY_PACKET_SIZE as int))
}

/// Logical offset at which the green channel of key `i` is written.
pub open spec fn spec_raw_index_green(i: int) -> int {
    spec_raw_index_red(i) + KEY_PACKET_SIZE
}

/// Logical offset at which the blue channel of key `i` is written.
pub open spec fn spec_raw_index_blue(i: int) -> int {
    spec_raw_index_red(i) + 2 * (KEY_PACKET_SIZE as int)
}

/// The logical byte array, described byte by byte: header bytes first, then
/// for each offset the channel of the key that the grouped layout places
/// there.
pub open spec fn spec_raw_byte<T: Color>(colors: Seq<T>, idx: int) -> u8
    recommends
        0 <= idx,
{
    if idx < reports::LED_FEATURE_REPORT_HEAD_LEN {
        reports::spec_led_feature_report_head()[idx]
    } else {
        let k = idx - reports::LED_FEATURE_REPORT_HEAD_LEN;
        let group_size = (3 * KEY_PACKET_SIZE) as int;
        let group = k / group_size;
        let rem = k % group_size;
        let key = group * (KEY_PACKET_SIZE as int) + rem % (KEY_PACKET_SIZE as int);
        let chan = rem / (KEY_PACKET_SIZE as int);
        if key < colors.len() {
            if chan == 0 {
                colors[key].spec_rgb().0
            } else if chan == 1 {
                colors[key].spec_rgb().1
            } else {
                colors[key].spec_rgb().2
            }
        } else {
            0
        }
    }
}

/// The physical byte array, described byte by byte: a zero on every packet
/// marker position, the relocated logical byte on every payload position,
/// and zero on the unused tail.
pub open spec fn spec_led_byte<T: Color>(colors: Seq<T>, p: int) -> u8 {
    let stride = (BITE_PACKET_SIZE + 1) as int;
    if p % stride == 0 {
        0
    } else {
        let idx = p - 1 - p / stride;
        if idx < BUFFER_SIZE_RAW {
            spec_raw_byte(colors, idx)
        } else {
            0
        }
    }
}

/// Get the physical offset of a logical byte: one zero byte is inserted
/// before every `packet_size`-byte block.
pub fn get_packeted_index_from_raw(index: usize, packet_size: usize) -> (r: usize)
    requires
        packet_size > 0,
        index < usize::MAX / 2,
    ensures
        r == spec_packeted_index(index as int, packet_size as int),
{
    assert(index / packet_size <= index) by {
        lemma_div_is_ordered(index as int, index as int, packet_size as int);
    }
    (index + 1) + index / packet_size
}

/// Encodes the set of per-key colors sent to the LED device in one frame.
#[derive(Clone, Debug)]
pub struct ColorBuffer<T> {
    /// One color per light code; the length is always
    /// [`NUMBER_KEY_LED_BUFFER`].
    pub buffer: Vec<T>,
}

impl<T> ColorBuffer<T> {
    /// The buffer always holds exactly one color per key light.
    pub open spec fn wf(&self) -> bool {
        self.buffer@.len() == NUMBER_KEY_LED_BUFFER
    }

    /// Create a buffer from a vector of exactly one color per key.
    pub fn from_array(buffer: Vec<T>) -> (r: Self)
        requires
            buffer@.len() == NUMBER_KEY_LED_BUFFER,
        ensures
            r.buffer == buffer,
            r.wf(),
    {
        Self { buffer }
    }

    /// Get the colors.
    pub fn buffer(&self) -> (r: &Vec<T>)
        ensures
            r@ == self.buffer@,
    {
        &self.buffer
    }

    /// Get a mutable reference to the colors.
    pub fn buffer_mut(&mut self) -> (r: &mut Vec<T>)
        ensures
            *r == old(self).buffer,
            *final(self) == (ColorBuffer { buffer: *final(r) }),
    {
        &mut self.buffer
    }

    /// Get the color at `index`, or `None` when the index is out of range.
    pub fn get(&self, index: usize) -> (r: Option<&T>)
        ensures
            match r {
                Some(c) => index < self.buffer@.len() && *c == self.buffer@[index as int],
                None => index >= self.buffer@.len(),
            },
    {
        if index < self.buffer.len() {
            Some(&self.buffer[index])
        } else {
            None
        }
    }

    /// Get a mutable reference to the color at `index`, or `None` when the
    /// index is out of range.
    pub fn get_mut(&mut self, index: usize) -> (r: Option<&mut T>)
        ensures
            index < old(self).buffer@.len() ==> (r matches Some(c) && *c == old(
                self,
            ).buffer@[index as int] && final(self).buffer@ == old(self).buffer@.update(
                index as int,
                *final(c),
            )),
            index >= old(self).buffer@.len() ==> r is None && *final(self) == *old(self),
    {
        if index < self.buffer.len() {
            Some(&mut self.buffer[index])
        } else {
            None
        }
    }

    /// Get the colors; same view as [`ColorBuffer::buffer`].
    pub fn iter(&self) -> (r: &Vec<T>)
        ensures
            r@ == self.buffer@,
    {
        &self.buffer
    }

    /// Get the colors mutably; same view as [`ColorBuffer::buffer_mut`].
    pub fn iter_mut(&mut self) -> (r: &mut Vec<T>)
        ensures
            *r == old(self).buffer,
            *final(self) == (ColorBuffer { buffer: *final(r) }),
    {
        &mut self.buffer
    }
}

impl<T: Copy> ColorBuffer<T> {
    /// Create the buffer with the same color for each key.
    pub fn from_element(color: T) -> (r: Self)
        ensures
            r.wf(),
            forall|i: int| 0 <= i < r.buffer@.len() ==> r.buffer@[i] == color,
    {
        let mut buffer: Vec<T> = Vec::new();
        for i in 0..NUMBER_KEY_LED_BUFFER
            invariant
                buffer@.len() == i,
                forall|j: int| 0 <= j < i ==> buffer@[j] == color,
        {
            buffer.push(color);
        }
        Self { buffer }
    }
}

impl<T: Copy + Default> ColorBuffer<T> {
    /// Create a new buffer filled with the default color.
    pub fn new() -> (r: Self)
        ensures
            r.wf(),
            forall|i: int, j: int|
                0 <= i < r.buffer@.len() && 0 <= j < r.buffer@.len() ==> r.buffer@[i]
                    == r.buffer@[j],
    {
        Self::from_element(T::default())
    }
}

impl<T: Copy + Default> Default for ColorBuffer<T> {
    /// A buffer filled with the default color.
    fn default() -> (r: Self)
        ensures
            r.wf(),
    {
        Self::new()
    }
}

impl<T: Color> ColorBuffer<T> {
    /// Compute one byte of the logical layout.
    fn raw_byte(&self, idx: usize) -> (b: u8)
        requires
            self.wf(),
            idx < BUFFER_SIZE_RAW,
        ensures
            b == spec_raw_byte(self.buffer@, idx as int),
    {
        if idx < reports::LED_FEATURE_REPORT_HEAD_LEN {
            let head = reports::led_feature_report_head();
            head[idx]
        } else {
            let k = idx - reports::LED_FEATURE_REPORT_HEAD_LEN;
            let group = k / (3 * KEY_PACKET_SIZE);
            let rem = k % (3 * KEY_PACKET_SIZE);
            assert(group <= 11) by {
                lemma_div_is_ordered(k as int, 431, (3 * KEY_PACKET_SIZE) as int);
            }
            let key = group * KEY_PACKET_SIZE + rem % KEY_PACKET_SIZE;
            let chan = rem / KEY_PACKET_SIZE;
            assert(key < NUMBER_KEY_LED_BUFFER);
            let c = &self.buffer[key];
            if chan == 0 {
                c.r()
            } else if chan == 1 {
                c.g()
            } else {
                c.b()
            }
        }
    }

    /// Compute one byte of the physical (packetized) layout.
    fn led_byte(&self, p: usize) -> (b: u8)
        requires
            self.wf(),
            p < BUFFER_SIZE_PACKETED,
        ensures
            b == spec_led_byte(self.buffer@, p as int),
    {
        let stride = BITE_PACKET_SIZE + 1;
        if p % stride == 0 {
            0
        } else {
            assert(p / stride < p) by {
                lemma_fundamental_div_mod(p as int, stride as int);
            }
            let idx = p - 1 - p / stride;
            if idx < BUFFER_SIZE_RAW {
                self.raw_byte(idx)
            } else {
                0
            }
        }
    }

    /// Get the byte array, ready to be sent to the LED device: every packet
    /// marker and every unused tail byte is zero, and every payload position
    /// holds the relocated logical byte.
    pub fn get_led_buffer(&self) -> (r: Vec<u8>)
        requires
            self.wf(),
        ensures
            r@.len() == BUFFER_SIZE_PACKETED,
            forall|p: int| 0 <= p < r@.len() ==> r@[p] == spec_led_byte(self.buffer@, p),
    {
        let mut r: Vec<u8> = Vec::new();
        let mut p: usize = 0;
        while p < BUFFER_SIZE_PACKETED
            invariant
                self.wf(),
                p <= BUFFER_SIZE_PACKETED,
                r@.len() == p,
                forall|q: int| 0 <= q < p ==> r@[q] == spec_led_byte(self.buffer@, q),
            decreases BUFFER_SIZE_PACKETED - p,
        {
            let b = self.led_byte(p);
            r.push(b);
            p = p + 1;
        }
        r
    }

    /// Split the LED byte array into its physical packets, in order: each is
    /// `BITE_PACKET_SIZE + 1` bytes and starts with the zero marker.
    pub fn get_led_packets(&self) -> (r: Vec<Vec<u8>>)
        requires
            self.wf(),
        ensures
            r@.len() == BUFFER_SIZE_PACKETED as int / (BITE_PACKET_SIZE + 1) as int,
            forall|k: int| 0 <= k < r@.len() ==> (#[trigger] r@[k])@.len() == BITE_PACKET_SIZE + 1,
            forall|k: int, j: int|
                0 <= k < r@.len() && 0 <= j < BITE_PACKET_SIZE + 1 ==> #[trigger] r@[k]@[j]
                    == spec_led_byte(self.buffer@, k * ((BITE_PACKET_SIZE + 1) as int) + j),
    {
        let led = self.get_led_buffer();
        let stride = BITE_PACKET_SIZE + 1;
        let count = BUFFER_SIZE_PACKETED / stride;
        let mut r: Vec<Vec<u8>> = Vec::new();
        let mut k: usize = 0;
        let mut base: usize = 0;
        while k < count
            invariant
                self.wf(),
                stride == BITE_PACKET_SIZE + 1,
                count == BUFFER_SIZE_PACKETED as int / (BITE_PACKET_SIZE + 1) as int,
                led@.len() == BUFFER_SIZE_PACKETED,
                forall|p: int| 0 <= p < led@.len() ==> led@[p] == spec_led_byte(self.buffer@, p),
                k <= count,
                base == k * ((BITE_PACKET_SIZE + 1) as int),
                r@.len() == k,
                forall|kk: int| 0 <= kk < k ==> (#[trigger] r@[kk])@.len() == BITE_PACKET_SIZE + 1,
                forall|kk: int, j: int|
                    0 <= kk < k && 0 <= j < BITE_PACKET_SIZE + 1 ==> #[trigger] r@[kk]@[j]
                        == spec_led_byte(self.buffer@, kk * ((BITE_PACKET_SIZE + 1) as int) + j),
            decreases count - k,
        {
            proof {
                assert(455int / 65int == 7);
                assert(count == 7);
                assert(base + stride <= BUFFER_SIZE_PACKETED) by (nonlinear_arith)
                    requires
                        base == k * ((BITE_PACKET_SIZE + 1) as int),
                        0 <= k < count,
                        count == 7,
                        stride == 65,
                        BITE_PACKET_SIZE == 64,
                        BUFFER_SIZE_PACKETED == 455,
                ;
            }
            let mut packet: Vec<u8> = Vec::new();
            let mut j: usize = 0;
            while j < stride
                invariant
                    stride == BITE_PACKET_SIZE + 1,
                    count == BUFFER_SIZE_PACKETED as int / (BITE_PACKET_SIZE + 1) as int,
                    k < count,
                    base == k * ((BITE_PACKET_SIZE + 1) as int),
                    base + stride <= BUFFER_SIZE_PACKETED,
                    led@.len() == BUFFER_SIZE_PACKETED,
                    forall|p: int| 0 <= p < led@.len() ==> led@[p] == spec_led_byte(self.buffer@, p),
                    j <= stride,
                    packet@.len() == j,
                    forall|jj: int| 0 <= jj < j ==> packet@[jj] == led@[base + jj],
                decreases stride - j,
            {
                packet.push(led[base + j]);
                j = j + 1;
            }
            proof {
                assert((k + 1) * ((BITE_PACKET_SIZE + 1) as int) == k * ((BITE_PACKET_SIZE
                    + 1) as int) + ((BITE_PACKET_SIZE + 1) as int)) by (nonlinear_arith);
            }
            r.push(packet);
            k = k + 1;
            base = base + stride;
        }
        r
    }
}

/// The packet relocation map is strictly increasing: a later logical byte
/// always lands at a later physical offset, so no payload byte overwrites
/// another.
pub proof fn lemma_packeted_index_strictly_increasing(i: int, j: int, packet_size: int)
    requires
        0 <= i < j,
        packet_size > 0,
    ensures
        spec_packeted_index(i, packet_size) < spec_packeted_index(j, packet_size),
{
    lemma_div_is_ordered(i, j, packet_size);
}

/// No payload byte lands on a packet marker: the physical offset of a
/// logical byte is never a multiple of `packet_size + 1`, so the leading
/// zero byte of a packet is never overwritten.
pub proof fn lemma_packeted_index_avoids_markers(i: int, packet_size: int)
    requires
        0 <= i,
        packet_size > 0,
    ensures
        spec_packeted_index(i, packet_size) % (packet_size + 1) != 0,
{
    let q = i / packet_size;
    let r = i % packet_size;
    lemma_fundamental_div_mod(i, packet_size);
    assert(spec_packeted_index(i, packet_size) == q * (packet_size + 1) + (r + 1)) by {
        assert(i == packet_size * q + r);
        assert(q * (packet_size + 1) == q * packet_size + q) by (nonlinear_arith);
        assert(packet_size * q == q * packet_size) by (nonlinear_arith);
    }
    lemma_fundamental_div_mod_converse_mod(
        spec_packeted_index(i, packet_size),
        packet_size + 1,
        q,
        r + 1,
    );
}

/// The packet relocation map is undone by `p - 1 - p / (packet_size + 1)`:
/// from the physical offset of a logical byte one recovers that byte's
/// logical offset.
pub proof fn lemma_packeted_index_inverse(i: int, packet_size: int)
    requires
        0 <= i,
        packet_size > 0,
    ensures
        spec_packeted_index(i, packet_size) / (packet_size + 1) == i / packet_size,
        spec_packeted_index(i, packet_size) - 1 - spec_packeted_index(i, packet_size) / (
        packet_size + 1) == i,
{
    let q = i / packet_size;
    let r = i % packet_size;
    lemma_fundamental_div_mod(i, packet_size);
    assert(spec_packeted_index(i, packet_size) == q * (packet_size + 1) + (r + 1)) by {
        assert(i == packet_size * q + r);
        assert(q * (packet_size + 1) == q * packet_size + q) by (nonlinear_arith);
        assert(packet_size * q == q * packet_size) by (nonlinear_arith);
    }
    lemma_fundamental_div_mod_converse_div(
        spec_packeted_index(i, packet_size),
        packet_size + 1,
        q,
        r + 1,
    );
}

/// Every packet marker position of the physical buffer holds zero: the
/// leading byte of each physical packet is always `0x00`.
pub proof fn lemma_led_marker_bytes_zero<T: Color>(colors: Seq<T>, p: int)
    requires
        p % ((BITE_PACKET_SIZE + 1) as int) == 0,
    ensures
        spec_led_byte(colors, p) == 0,
{
}

/// The total physical buffer size is an exact multiple of the packet stride
/// `BITE_PACKET_SIZE + 1`.
pub proof fn lemma_buffer_size_packeted_multiple()
    ensures
        BUFFER_SIZE_PACKETED as int % (BITE_PACKET_SIZE + 1) as int == 0,
{
    assert(BUFFER_SIZE_PACKETED == 455);
    assert(BITE_PACKET_SIZE == 64);
    assert(455int % 65int == 0);
}

/// The logical layout reads back: at the offset where the grouped layout
/// places channel `chan` of key `i`, the logical byte array holds exactly
/// that channel of `colors[i]`.
proof fn lemma_raw_byte_at_offset<T: Color>(colors: Seq<T>, i: int, chan: int)
    requires
        colors.len() == NUMBER_KEY_LED_BUFFER,
        0 <= i < NUMBER_KEY_LED_BUFFER,
        0 <= chan < 3,
    ensures
        spec_raw_byte(colors, spec_raw_index_red(i) + chan * (KEY_PACKET_SIZE as int)) == (
        if chan == 0 {
            colors[i].spec_rgb().0
        } else if chan == 1 {
            colors[i].spec_rgb().1
        } else {
            colors[i].spec_rgb().2
        }),
{
    let q = i / (KEY_PACKET_SIZE as int);
    let rloc = i % (KEY_PACKET_SIZE as int);
    lemma_fundamental_div_mod(i, KEY_PACKET_SIZE as int);
    let idx = spec_raw_index_red(i) + chan * (KEY_PACKET_SIZE as int);
    let k = idx - reports::LED_FEATURE_REPORT_HEAD_LEN;
    assert(k == 36 * q + (chan * 12 + rloc)) by (nonlinear_arith)
        requires
            k == rloc + 3 * (KEY_PACKET_SIZE as int) * q + chan * (KEY_PACKET_SIZE as int),
            KEY_PACKET_SIZE == 12,
    ;
    assert(q * 36 == 36 * q) by (nonlinear_arith);
    assert(0 <= chan * 12 + rloc < 36);
    lemma_fundamental_div_mod_converse_div(k, 36, q, chan * 12 + rloc);
    lemma_fundamental_div_mod_converse_mod(k, 36, q, chan * 12 + rloc);
    lemma_fundamental_div_mod_converse_div(chan * 12 + rloc, 12, chan, rloc);
    lemma_fundamental_div_mod_converse_mod(chan * 12 + rloc, 12, chan, rloc);
    assert(q * 12 == 12 * q) by (nonlinear_arith);
    assert(k / 36 * (KEY_PACKET_SIZE as int) + k % 36 % (KEY_PACKET_SIZE as int) == i);
}

/// Packing is lossless per channel: for every key index, the physical
/// buffer holds that key's red, green and blue channel bytes exactly at the
/// packetized offsets of the logical layout.
pub proof fn lemma_pack_roundtrip<T: Color>(colors: Seq<T>, i: int)
    requires
        colors.len() == NUMBER_KEY_LED_BUFFER,
        0 <= i < NUMBER_KEY_LED_BUFFER,
    ensures
        spec_led_byte(colors, spec_packeted_index(spec_raw_index_red(i), BITE_PACKET_SIZE as int))
            == colors[i].spec_rgb().0,
        spec_led_byte(
            colors,
            spec_packeted_index(spec_raw_index_green(i), BITE_PACKET_SIZE as int),
        ) == colors[i].spec_rgb().1,
        spec_led_byte(colors, spec_packeted_index(spec_raw_index_blue(i), BITE_PACKET_SIZE as int))
            == colors[i].spec_rgb().2,
{
    lemma_div_is_ordered(i, (NUMBER_KEY_LED_BUFFER - 1) as int, KEY_PACKET_SIZE as int);
    assert((NUMBER_KEY_LED_BUFFER - 1) as int / (KEY_PACKET_SIZE as int) == 11);
    lemma_pack_roundtrip_channel(colors, i, 0);
    lemma_pack_roundtrip_channel(colors, i, 1);
    lemma_pack_roundtrip_channel(colors, i, 2);
    assert(spec_raw_index_red(i) == spec_raw_index_red(i) + 0 * (KEY_PACKET_SIZE as int));
    assert(spec_raw_index_green(i) == spec_raw_index_red(i) + 1 * (KEY_PACKET_SIZE as int));
    assert(spec_raw_index_blue(i) == spec_raw_index_red(i) + 2 * (KEY_PACKET_SIZE as int));
}

/// One channel of [`lemma_pack_roundtrip`]: the physical buffer reads back
/// channel `chan` of key `i` at the packetized offset of its logical slot.
proof fn lemma_pack_roundtrip_channel<T: Color>(colors: Seq<T>, i: int, chan: int)
    requires
        colors.len() == NUMBER_KEY_LED_BUFFER,
        0 <= i < NUMBER_KEY_LED_BUFFER,
        0 <= chan < 3,
        i / (KEY_PACKET_SIZE as int) <= 11,
    ensures
        spec_led_byte(
            colors,
            spec_packeted_index(
                spec_raw_index_red(i) + chan * (KEY_PACKET_SIZE as int),
                BITE_PACKET_SIZE as int,
            ),
        ) == (if chan == 0 {
            colors[i].spec_rgb().0
        } else if chan == 1 {
            colors[i].spec_rgb().1
        } else {
            colors[i].spec_rgb().2
        }),
{
    let idx = spec_raw_index_red(i) + chan * (KEY_PACKET_SIZE as int);
    assert(0 <= idx < BUFFER_SIZE_RAW) by (nonlinear_arith)
        requires
            idx == reports::LED_FEATURE_REPORT_HEAD_LEN + i % (KEY_PACKET_SIZE as int) + 3 * (
            KEY_PACKET_SIZE as int) * (i / (KEY_PACKET_SIZE as int)) + chan * (
            KEY_PACKET_SIZE as int),
            0 <= i % (KEY_PACKET_SIZE as int) < KEY_PACKET_SIZE,
            0 <= i / (KEY_PACKET_SIZE as int) <= 11,
            0 <= chan < 3,
            KEY_PACKET_SIZE == 12,
            BUFFER_SIZE_RAW == 436,
            reports::LED_FEATURE_REPORT_HEAD_LEN == 4,
    ;
    lemma_packeted_index_avoids_markers(idx, BITE_PACKET_SIZE as int);
    lemma_packeted_index_inverse(idx, BITE_PACKET_SIZE as int);
    lemma_raw_byte_at_offset(colors, i, chan);
}

/// The physical buffer size is the smallest multiple of the packet stride
/// that lies strictly beyond the physical offset of the last logical byte.
pub proof fn lemma_buffer_size_packeted_formula()
    ensures
        spec_packeted_index(BUFFER_SIZE_RAW - 1, BITE_PACKET_SIZE as int) < BUFFER_SIZE_PACKETED,
        BUFFER_SIZE_PACKETED - (BITE_PACKET_SIZE + 1) <= spec_packeted_index(
            BUFFER_SIZE_RAW - 1,
            BITE_PACKET_SIZE as int,
        ),
{
    assert((BUFFER_SIZE_RAW - 1) / (BITE_PACKET_SIZE as int) == 6);
}

} // verus!
