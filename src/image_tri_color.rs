//! Packed one-bit images and their expansion into two-color pixel streams.
use embedded_graphics::prelude::{Point, Size};
use epd_waveshare::color::TriColor;
use vstd::prelude::*;

use crate::icons::{
    bit_of, convert_rgb565_to_binary, encoded_bit, encodes, is_light, pixel_count,
    DEFAULT_LUMINANCE_THRESHOLD,
};

verus! {

#[verifier::external_type_specification]
pub struct ExTriColor(TriColor);

#[verifier::external_type_specification]
pub struct ExPoint(Point);

#[verifier::external_type_specification]
pub struct ExSize(Size);

/// Whether pixel `p` of a packed image is paper: bit `7 - p % 8` of byte `p / 8`.
pub open spec fn packed_bit(data: Seq<u8>, p: int) -> bool {
    bit_of(data[p / 8], 7 - p % 8)
}

/// The pixels of a packed image, row-major: paper where the bit is set, ink elsewhere.
pub open spec fn decode(data: Seq<u8>, ink: TriColor, paper: TriColor) -> Seq<TriColor> {
    Seq::new((8 * data.len()) as nat, |p: int| if packed_bit(data, p) { paper } else { ink })
}

/// The other color of the pair: paper for ink, ink for anything else.
pub open spec fn swapped(c: TriColor, ink: TriColor, paper: TriColor) -> TriColor {
    if c == ink {
        paper
    } else {
        ink
    }
}

/// Decoding with ink and paper exchanged yields, pixel by pixel, the complement
/// of the plain decode, over the same number of pixels.
pub proof fn lemma_swap_complement(data: Seq<u8>, ink: TriColor, paper: TriColor)
    ensures
        decode(data, paper, ink).len() == decode(data, ink, paper).len(),
        forall|p: int|
            0 <= p < decode(data, ink, paper).len() ==> #[trigger] decode(data, paper, ink)[p]
                == swapped(decode(data, ink, paper)[p], ink, paper),
{
}

/// Encoding an RGB565 bitmap whose pixel count is a multiple of eight gives one
/// byte per eight pixels, and decoding those bytes gives exactly as many
/// pixels again. Because the encoder reverses its bytes and the decoder reads
/// the most significant bit first, decoded pixel `p` stands for source pixel
/// `n - 1 - p`: paper where that pixel is light, ink elsewhere.
pub proof fn lemma_round_trip(
    rgb565: Seq<u8>,
    threshold: u32,
    packed: Seq<u8>,
    ink: TriColor,
    paper: TriColor,
)
    requires
        rgb565.len() % 2 == 0,
        pixel_count(rgb565) % 8 == 0,
        encodes(rgb565, threshold, packed),
    ensures
        packed.len() == pixel_count(rgb565) / 8,
        decode(packed, ink, paper).len() == pixel_count(rgb565),
        forall|p: int|
            0 <= p < pixel_count(rgb565) ==> #[trigger] decode(packed, ink, paper)[p] == if is_light(
                rgb565,
                pixel_count(rgb565) - 1 - p,
                threshold,
            ) {
                paper
            } else {
                ink
            },
{
    let n = pixel_count(rgb565);
    let g = n / 8;
    assert forall|p: int| 0 <= p < n implies #[trigger] decode(packed, ink, paper)[p] == if is_light(
        rgb565,
        n - 1 - p,
        threshold,
    ) {
        paper
    } else {
        ink
    } by {
        let j = p / 8;
        let o = p % 8;
        assert(p == 8 * j + o && 0 <= o < 8 && 0 <= j < g) by (nonlinear_arith)
            requires
                0 <= p < n,
                n == 8 * g,
                j == p / 8,
                o == p % 8,
        ;
        assert(bit_of(packed[j], 7 - o) == encoded_bit(rgb565, threshold, g - 1 - j, 7 - o));
        assert(8 * (g - 1 - j) + (7 - o) == n - 1 - p);
    }
}

/// A packed one-bit image placed at a point, with the colors for clear and set bits.
pub struct ImageTriColor {
    pub data: Vec<u8>,
    pub width: u32,
    pub color: TriColor,
    pub background: TriColor,
    pub point: Point,
}

impl ImageTriColor {
    /// Number of rows: the bits divided by the width, rounded down.
    pub open spec fn height(&self) -> int {
        (8 * self.data@.len() as int) / (self.width as int)
    }

    /// The image's pixels, row-major.
    pub open spec fn pixels_view(&self) -> Seq<TriColor> {
        decode(self.data@, self.color, self.background)
    }

    /// Width and height of the image.
    pub fn size(&self) -> (r: Size)
        requires
            self.width > 0,
            8 * self.data@.len() <= u32::MAX,
        ensures
            r.width == self.width,
            r.height == self.height(),
    {
        let bits: u32 = (self.data.len() * 8) as u32;
        Size { width: self.width, height: bits / self.width }
    }

    /// The image's pixels in drawing order.
    pub fn pixels(&self) -> (r: Vec<TriColor>)
        ensures
            r@ == self.pixels_view(),
    {
        let mut stream = ContiguousPixelsTriColor::new(self);
        let mut r: Vec<TriColor> = Vec::new();
        loop
            invariant
                stream.well_formed(),
                stream.bytes() == self.data@,
                stream.ink() == self.color,
                stream.paper() == self.background,
                r@ == self.pixels_view().take(stream.position()),
            decreases 8 * self.data@.len() - stream.position(),
        {
            let ghost before = stream.position();
            match stream.next() {
                Some(c) => {
                    r.push(c);
                    assert(r@ =~= self.pixels_view().take(before + 1));
                },
                None => {
                    assert(r@ =~= self.pixels_view());
                    return r;
                },
            }
        }
    }
}

/// Horizontal distance from an icon's anchor to its left edge.
pub const ICON_ANCHOR_OFFSET: i32 = 16;

/// An icon ready to draw: `rgb565` reduced to one bit per pixel, black ink on
/// white paper, its left edge [`ICON_ANCHOR_OFFSET`] pixels left of `x` and its
/// top at `y`.
pub fn icon_image(rgb565: &[u8], width: u32, x: i32, y: i32) -> (r: ImageTriColor)
    requires
        rgb565@.len() % 2 == 0,
        x >= i32::MIN + ICON_ANCHOR_OFFSET,
    ensures
        encodes(rgb565@, DEFAULT_LUMINANCE_THRESHOLD, r.data@),
        r.width == width,
        r.color == TriColor::Black,
        r.background == TriColor::White,
        r.point == (Point { x: (x - ICON_ANCHOR_OFFSET) as i32, y }),
{
    ImageTriColor {
        data: convert_rgb565_to_binary(rgb565),
        width,
        color: TriColor::Black,
        background: TriColor::White,
        point: Point { x: x - ICON_ANCHOR_OFFSET, y },
    }
}

/// A cursor over the pixels of an [`ImageTriColor`], one bit at a time,
/// most significant bit of each byte first.
pub struct ContiguousPixelsTriColor<'a> {
    data: &'a [u8],
    color: TriColor,
    background: TriColor,
    index: usize,
    offset: usize,
}

impl<'a> ContiguousPixelsTriColor<'a> {
    /// The packed bytes being read.
    pub closed spec fn bytes(&self) -> Seq<u8> {
        self.data@
    }

    /// Color of a clear bit.
    pub closed spec fn ink(&self) -> TriColor {
        self.color
    }

    /// Color of a set bit.
    pub closed spec fn paper(&self) -> TriColor {
        self.background
    }

    /// The cursor stands on a bit of the data, or just past its end.
    pub closed spec fn well_formed(&self) -> bool {
        &&& self.offset < 8
        &&& self.index <= self.data@.len()
        &&& self.index == self.data@.len() ==> self.offset == 0
    }

    /// Index of the next pixel.
    pub closed spec fn position(&self) -> int {
        8 * self.index + self.offset
    }

    /// Starts at the first pixel of `image`.
    pub fn new(image: &'a ImageTriColor) -> (r: Self)
        ensures
            r.well_formed(),
            r.bytes() == image.data@,
            r.ink() == image.color,
            r.paper() == image.background,
            r.position() == 0,
    {
        ContiguousPixelsTriColor {
            data: image.data.as_slice(),
            color: image.color,
            background: image.background,
            index: 0,
            offset: 0,
        }
    }

    /// The next pixel, or `None` once every bit has been read.
    pub fn next(&mut self) -> (r: Option<TriColor>)
        requires
            old(self).well_formed(),
        ensures
            final(self).well_formed(),
            final(self).bytes() == old(self).bytes(),
            final(self).ink() == old(self).ink(),
            final(self).paper() == old(self).paper(),
            old(self).position() < 8 * old(self).bytes().len() ==> {
                &&& r == Some(decode(old(self).bytes(), old(self).ink(), old(self).paper())[old(self).position()])
                &&& final(self).position() == old(self).position() + 1
            },
            old(self).position() >= 8 * old(self).bytes().len() ==> {
                &&& r.is_none()
                &&& final(self).position() == old(self).position()
            },
    {
        if self.index >= self.data.len() {
            return None;
        }
        let value: u8 = self.data[self.index];
        let shift: u8 = (7 - self.offset) as u8;
        let color = if (value >> shift) & 1u8 == 1u8 {
            self.background
        } else {
            self.color
        };
        proof {
            let p = self.position();
            assert(p / 8 == self.index as int && p % 8 == self.offset as int);
        }
        if self.offset == 7 {
            self.offset = 0;
            self.index = self.index + 1;
        } else {
            self.offset = self.offset + 1;
        }
        Some(color)
    }
}

} // verus!
