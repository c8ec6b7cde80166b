//! Reduction of RGB565 icon bitmaps to packed one-bit images.
use vstd::prelude::*;

verus! {

/// Luminance above which a pixel becomes paper (bit 1) rather than ink (bit 0).
pub const DEFAULT_LUMINANCE_THRESHOLD: u32 = 40;

/// Number of pixels in a big-endian RGB565 buffer.
pub open spec fn pixel_count(data: Seq<u8>) -> int {
    data.len() as int / 2
}

/// Number of packed bytes: one per group of eight pixels, the last group possibly short.
pub open spec fn group_count(data: Seq<u8>) -> int {
    (pixel_count(data) + 7) / 8
}

/// The five-bit red channel of pixel `i`.
pub open spec fn red(data: Seq<u8>, i: int) -> int {
    data[2 * i] as int / 8
}

/// The six-bit green channel of pixel `i`.
pub open spec fn green(data: Seq<u8>, i: int) -> int {
    (data[2 * i] as int % 8) * 8 + data[2 * i + 1] as int / 32
}

/// The five-bit blue channel of pixel `i`.
pub open spec fn blue(data: Seq<u8>, i: int) -> int {
    data[2 * i + 1] as int % 32
}

/// Weighted luminance of pixel `i`, on the channels' native scales.
pub open spec fn luminance(data: Seq<u8>, i: int) -> int {
    (red(data, i) * 30 + green(data, i) * 59 + blue(data, i) * 11) / 100
}

/// Whether pixel `i` is encoded as paper.
pub open spec fn is_light(data: Seq<u8>, i: int, threshold: u32) -> bool {
    luminance(data, i) > threshold
}

/// Bit `k` (0 is the least significant) of `b`.
pub open spec fn bit_of(b: u8, k: int) -> bool {
    (b >> (k as u8)) & 1u8 == 1u8
}

/// Bit `k` of the byte that encodes group `g`: set exactly for a light pixel
/// that exists; the missing pixels of a short last group stay clear.
pub open spec fn encoded_bit(data: Seq<u8>, threshold: u32, g: int, k: int) -> bool {
    8 * g + k < pixel_count(data) && is_light(data, 8 * g + k, threshold)
}

/// `packed` is the encoding of `data`: one byte per group of eight pixels, the
/// groups' bytes in reverse order.
pub open spec fn encodes(data: Seq<u8>, threshold: u32, packed: Seq<u8>) -> bool {
    &&& packed.len() == group_count(data)
    &&& forall|j: int, k: int|
        0 <= j < packed.len() && 0 <= k < 8 ==> #[trigger] bit_of(packed[j], k) == encoded_bit(
            data,
            threshold,
            group_count(data) - 1 - j,
            k,
        )
}

proof fn lemma_channels(hi: u8, lo: u8)
    ensures
        ((((hi as u16) << 8u16) | (lo as u16)) >> 11u16) & 0x1Fu16 == (hi / 8) as u16,
        ((((hi as u16) << 8u16) | (lo as u16)) >> 5u16) & 0x3Fu16 == ((hi % 8) * 8 + lo / 32) as u16,
        (((hi as u16) << 8u16) | (lo as u16)) & 0x1Fu16 == (lo % 32) as u16,
{
    assert(((((hi as u16) << 8u16) | (lo as u16)) >> 11u16) & 0x1Fu16 == (hi / 8) as u16)
        by (bit_vector);
    assert(((((hi as u16) << 8u16) | (lo as u16)) >> 5u16) & 0x3Fu16 == ((hi % 8) * 8 + lo / 32) as u16)
        by (bit_vector);
    assert((((hi as u16) << 8u16) | (lo as u16)) & 0x1Fu16 == (lo % 32) as u16) by (bit_vector);
}

proof fn lemma_zero_bits(k: u8)
    requires
        k < 8,
    ensures
        !bit_of(0u8, k as int),
{
    assert((0u8 >> k) & 1u8 != 1u8) by (bit_vector);
}

proof fn lemma_set_bit(b: u8, k: u8, m: u8)
    requires
        k < 8,
        m < 8,
    ensures
        bit_of(b | (1u8 << k), m as int) == (bit_of(b, m as int) || m == k),
{
    assert((((b | (1u8 << k)) >> m) & 1u8 == 1u8) == (((b >> m) & 1u8 == 1u8) || m == k))
        by (bit_vector)
        requires
            k < 8,
            m < 8,
    ;
}

/// Luminance of pixel `i` of a big-endian RGB565 buffer.
fn pixel_luminance(data: &[u8], i: usize) -> (l: u32)
    requires
        2 * i + 1 < data@.len(),
    ensures
        l == luminance(data@, i as int),
{
    let len = data.len();
    assert(2 * i + 1 < len);
    let hi = data[2 * i];
    let lo = data[2 * i + 1];
    let pixel: u16 = ((hi as u16) << 8u16) | (lo as u16);
    let r = (pixel >> 11u16) & 0x1Fu16;
    let g = (pixel >> 5u16) & 0x3Fu16;
    let b = pixel & 0x1Fu16;
    proof {
        lemma_channels(hi, lo);
    }
    (r as u32 * 30 + g as u32 * 59 + b as u32 * 11) / 100
}

/// The bytes of `v` in reverse order.
fn reverse_bytes(v: &Vec<u8>) -> (r: Vec<u8>)
    ensures
        r@ == v@.reverse(),
{
    let mut r: Vec<u8> = Vec::new();
    let mut i: usize = v.len();
    while i > 0
        invariant
            i <= v@.len(),
            r@.len() == v@.len() - i,
            forall|j: int| 0 <= j < r@.len() ==> r@[j] == v@[v@.len() - 1 - j],
        decreases i,
    {
        i = i - 1;
        r.push(v[i]);
    }
    assert(r@ =~= v@.reverse());
    r
}

/// Packs an RGB565 bitmap into one bit per pixel, with an explicit luminance
/// threshold.
///
/// Pixels are taken in groups of eight; pixel `k` of a group sets bit `k` of
/// the group's byte when its luminance is above `threshold`. The bytes of the
/// groups are then emitted in reverse order, which is the convention the
/// MSB-first decoder expects.
pub fn convert_rgb565_to_binary_with_threshold(rgb565_data: &[u8], threshold: u32) -> (r: Vec<u8>)
    requires
        rgb565_data@.len() % 2 == 0,
    ensures
        encodes(rgb565_data@, threshold, r@),
{
    let n: usize = rgb565_data.len() / 2;
    let groups: usize = n / 8 + if n % 8 == 0 { 0 } else { 1 };
    assert(groups == group_count(rgb565_data@));
    let mut binary_data: Vec<u8> = Vec::new();
    let mut g: usize = 0;
    while g < groups
        invariant
            n == pixel_count(rgb565_data@),
            groups == group_count(rgb565_data@),
            g <= groups,
            binary_data@.len() == g,
            forall|j: int, k: int|
                0 <= j < g && 0 <= k < 8 ==> #[trigger] bit_of(binary_data@[j], k) == encoded_bit(
                    rgb565_data@,
                    threshold,
                    j,
                    k,
                ),
        decreases groups - g,
    {
        let mut byte: u8 = 0;
        let mut index: u8 = 0;
        proof {
            assert forall|m: int| 0 <= m < 8 implies !bit_of(byte, m) by {
                lemma_zero_bits(m as u8);
            }
        }
        while index < 8
            invariant
                n == pixel_count(rgb565_data@),
                g < groups,
                groups == group_count(rgb565_data@),
                index <= 8,
                forall|m: int|
                    0 <= m < 8 ==> #[trigger] bit_of(byte, m) == (m < index && encoded_bit(
                        rgb565_data@,
                        threshold,
                        g as int,
                        m,
                    )),
            decreases 8 - index,
        {
            let p: usize = 8 * g + index as usize;
            if p < n && pixel_luminance(rgb565_data, p) > threshold {
                let old_byte = byte;
                byte = byte | (1u8 << index);
                proof {
                    assert forall|m: int| 0 <= m < 8 implies #[trigger] bit_of(byte, m) == (bit_of(
                        old_byte,
                        m,
                    ) || m == index) by {
                        lemma_set_bit(old_byte, index, m as u8);
                    }
                }
            }
            index = index + 1;
        }
        binary_data.push(byte);
        g = g + 1;
    }
    reverse_bytes(&binary_data)
}

/// Packs an RGB565 bitmap into one bit per pixel with the default threshold.
pub fn convert_rgb565_to_binary(rgb565_data: &[u8]) -> (r: Vec<u8>)
    requires
        rgb565_data@.len() % 2 == 0,
    ensures
        encodes(rgb565_data@, DEFAULT_LUMINANCE_THRESHOLD, r@),
{
    convert_rgb565_to_binary_with_threshold(rgb565_data, DEFAULT_LUMINANCE_THRESHOLD)
}

} // verus!
