//! Screen geometry, the display's pixel format, and the decoding of native
//! pixel words into interleaved RGB bytes.
use vstd::prelude::*;
use vstd::std_specs::bits::{u32_trailing_zeros, axiom_u32_trailing_zeros};
use vstd::arithmetic::div_mod::lemma_fundamental_div_mod_converse;
use vstd::arithmetic::mul::lemma_mul_inequality;
use crate::geometry::{Point, Rect, rect_of};

verus! {

/// The captured screen's size and the channel masks of its pixel format.
#[derive(Copy, Clone, Debug, PartialEq, Eq, Structural)]
pub struct ScreenData {
    pub width: i32,
    pub height: i32,
    pub rmask: u32,
    pub gmask: u32,
    pub bmask: u32,
}

/// The channel value that `mask` selects in `word`: the masked bits shifted
/// down by the mask's trailing zero count, kept to eight bits. An empty mask
/// selects nothing and gives zero.
pub open spec fn channel_of(word: u32, mask: u32) -> u8 {
    if mask == 0 {
        0
    } else {
        (((word & mask) >> u32_trailing_zeros(mask)) & 0xff) as u8
    }
}

impl ScreenData {
    pub fn new(width: i32, height: i32, rmask: u32, gmask: u32, bmask: u32) -> (s: Self)
        ensures
            s == (ScreenData { width, height, rmask, gmask, bmask }),
    {
        ScreenData { width, height, rmask, gmask, bmask }
    }

    /// The whole captured screen, from the origin to `(width, height)`.
    pub fn full_rect(&self) -> (r: Rect)
        ensures
            r == rect_of(Point { x: 0, y: 0 }, Point { x: self.width, y: self.height }),
    {
        Rect::from_points(Point::new(0, 0), Point::new(self.width, self.height))
    }

    /// The red, green and blue bytes of a native pixel word.
    pub fn decode_pixel(&self, word: u32) -> (rgb: (u8, u8, u8))
        ensures
            rgb == (channel_of(word, self.rmask), channel_of(word, self.gmask), channel_of(
                word,
                self.bmask,
            )),
    {
        (extract_channel(word, self.rmask), extract_channel(word, self.gmask), extract_channel(
            word,
            self.bmask,
        ))
    }

    /// Decodes a row-major block of native pixel words into interleaved RGB
    /// bytes, three per word.
    pub fn rgb_bytes(&self, words: &Vec<u32>) -> (out: Vec<u8>)
        requires
            words.len() * 3 <= usize::MAX,
        ensures
            out.len() == words.len() * 3,
            forall|i: int|
                0 <= i < words.len() ==> {
                    &&& out@[3 * i] == channel_of(#[trigger] words@[i], self.rmask)
                    &&& out@[3 * i + 1] == channel_of(words@[i], self.gmask)
                    &&& out@[3 * i + 2] == channel_of(words@[i], self.bmask)
                },
    {
        let mut out: Vec<u8> = Vec::with_capacity(words.len() * 3);
        let mut i: usize = 0;
        while i < words.len()
            invariant
                i <= words.len(),
                words.len() * 3 <= usize::MAX,
                out.len() == i * 3,
                forall|k: int|
                    0 <= k < i ==> {
                        &&& out@[3 * k] == channel_of(#[trigger] words@[k], self.rmask)
                        &&& out@[3 * k + 1] == channel_of(words@[k], self.gmask)
                        &&& out@[3 * k + 2] == channel_of(words@[k], self.bmask)
                    },
            decreases words.len() - i,
        {
            let (r, g, b) = self.decode_pixel(words[i]);
            out.push(r);
            out.push(g);
            out.push(b);
            i = i + 1;
        }
        out
    }
}

impl ScreenData {
    /// The RGB bytes of a capture of `region`, from the native words read
    /// back under it in row-major order; `None` when there is not exactly
    /// one word per pixel of the region, or too many to hold three bytes each.
    pub fn capture_rgb(&self, region: Rect, words: &Vec<u32>) -> (out: Option<Vec<u8>>)
        ensures
            out is Some <==> words.len() == region.width as int * region.height as int
                && words.len() * 3 <= usize::MAX,
            out matches Some(bytes) ==> {
                &&& bytes.len() == words.len() * 3
                &&& forall|i: int|
                    0 <= i < words.len() ==> {
                        &&& bytes@[3 * i] == channel_of(#[trigger] words@[i], self.rmask)
                        &&& bytes@[3 * i + 1] == channel_of(words@[i], self.gmask)
                        &&& bytes@[3 * i + 2] == channel_of(words@[i], self.bmask)
                    }
            },
    {
        let area = region.area();
        if words.len() as u64 != area {
            return None;
        }
        if words.len() > usize::MAX / 3 {
            return None;
        }
        Some(self.rgb_bytes(words))
    }
}

/// The native word of four bytes, in the image's byte order: least
/// significant byte first, or most significant first.
pub open spec fn word_of(b0: u8, b1: u8, b2: u8, b3: u8, lsb_first: bool) -> u32 {
    if lsb_first {
        (b0 as int + b1 as int * 0x100 + b2 as int * 0x1_0000 + b3 as int * 0x100_0000) as u32
    } else {
        (b3 as int + b2 as int * 0x100 + b1 as int * 0x1_0000 + b0 as int * 0x100_0000) as u32
    }
}

/// The native word of the pixel in row `y`, column `x` of an image whose
/// rows start `stride` bytes apart and whose pixels take four bytes.
pub open spec fn pixel_word(data: Seq<u8>, stride: int, lsb_first: bool, y: int, x: int) -> u32 {
    let at = y * stride + 4 * x;
    word_of(data[at], data[at + 1], data[at + 2], data[at + 3], lsb_first)
}

/// Whether `len` bytes hold an image of `width` by `height` pixels of
/// `bytes_per_pixel` bytes, with rows `stride` bytes apart. Only four-byte
/// pixels are read, and a row's pixels must fit within its stride.
pub open spec fn image_fits(len: int, width: int, height: int, stride: int, bytes_per_pixel: int) -> bool {
    &&& bytes_per_pixel == 4
    &&& width * 4 <= stride
    &&& (width == 0 || height == 0 || (height - 1) * stride + width * 4 <= len)
}

/// The native word of four bytes.
pub fn word_from_bytes(b0: u8, b1: u8, b2: u8, b3: u8, lsb_first: bool) -> (w: u32)
    ensures
        w == word_of(b0, b1, b2, b3, lsb_first),
{
    if lsb_first {
        b0 as u32 + b1 as u32 * 0x100 + b2 as u32 * 0x1_0000 + b3 as u32 * 0x100_0000
    } else {
        b3 as u32 + b2 as u32 * 0x100 + b1 as u32 * 0x1_0000 + b0 as u32 * 0x100_0000
    }
}

/// The native words of an image read back from the display, row by row:
/// `width` by `height` pixels of `bytes_per_pixel` bytes in `data`, with
/// rows `stride` bytes apart. `None` when the pixels are not four bytes
/// wide, a row does not fit its stride, or `data` is too short.
pub fn words_from_image(
    data: &Vec<u8>,
    width: u32,
    height: u32,
    stride: usize,
    bytes_per_pixel: usize,
    lsb_first: bool,
) -> (out: Option<Vec<u32>>)
    ensures
        out is Some <==> image_fits(
            data.len() as int,
            width as int,
            height as int,
            stride as int,
            bytes_per_pixel as int,
        ),
        out matches Some(words) ==> {
            &&& words.len() == width as int * height as int
            &&& forall|j: int|
                0 <= j < words.len() ==> #[trigger] words@[j] == pixel_word(
                    data@,
                    stride as int,
                    lsb_first,
                    j / width as int,
                    j % width as int,
                )
        },
{
    if bytes_per_pixel != 4 {
        return None;
    }
    if width as u64 * 4 > stride as u64 {
        return None;
    }
    if width == 0 || height == 0 {
        assert(width as int * height as int == 0) by (nonlinear_arith)
            requires
                width == 0 || height == 0,
        ;
        return Some(Vec::new());
    }
    let w = width as usize;
    let h = height as usize;
    assert((h - 1) as int * stride as int <= 0xffff_ffff * 0xffff_ffff_ffff_ffff) by (
    nonlinear_arith)
        requires
            0 <= (h - 1) <= 0xffff_ffff,
            0 <= stride <= 0xffff_ffff_ffff_ffff,
    ;
    let need: u128 = (h as u128 - 1) * (stride as u128) + (w as u128) * 4;
    if need > data.len() as u128 {
        return None;
    }
    let mut out: Vec<u32> = Vec::new();
    let mut y: usize = 0;
    while y < h
        invariant
            w == width,
            h == height,
            w > 0,
            w * 4 <= stride,
            (h - 1) * stride + w * 4 <= data.len(),
            y <= h,
            out.len() == y * w,
            forall|j: int|
                0 <= j < out.len() ==> #[trigger] out@[j] == pixel_word(
                    data@,
                    stride as int,
                    lsb_first,
                    j / w as int,
                    j % w as int,
                ),
        decreases h - y,
    {
        proof {
            lemma_mul_inequality(y as int, (h - 1) as int, stride as int);
        }
        let row: usize = y * stride;
        let mut x: usize = 0;
        while x < w
            invariant
                w == width,
                w > 0,
                y < h,
                row == y * stride,
                row + w * 4 <= data.len(),
                x <= w,
                out.len() == y * w + x,
                forall|j: int|
                    0 <= j < out.len() ==> #[trigger] out@[j] == pixel_word(
                        data@,
                        stride as int,
                        lsb_first,
                        j / w as int,
                        j % w as int,
                    ),
            decreases w - x,
        {
            let at = row + 4 * x;
            let word = word_from_bytes(data[at], data[at + 1], data[at + 2], data[at + 3], lsb_first);
            proof {
                lemma_fundamental_div_mod_converse(out.len() as int, w as int, y as int, x as int);
            }
            out.push(word);
            x = x + 1;
        }
        assert(y * w + w == (y + 1) * w) by (nonlinear_arith);
        y = y + 1;
    }
    let ghost n = out.len() as int;
    assert(n == width as int * height as int) by (nonlinear_arith)
        requires
            n == h as int * w as int,
            h == height,
            w == width,
    ;
    Some(out)
}

/// The channel value that `mask` selects in `word`.
pub fn extract_channel(word: u32, mask: u32) -> (c: u8)
    ensures
        c == channel_of(word, mask),
{
    if mask == 0 {
        0
    } else {
        proof {
            axiom_u32_trailing_zeros(mask);
        }
        let shift = mask.trailing_zeros();
        (((word & mask) >> shift) & 0xff) as u8
    }
}

/// The trailing zero count of a byte mask shifted left by `s` is `s`.
proof fn lemma_byte_mask_shift(s: u32)
    requires
        s <= 24,
    ensures
        u32_trailing_zeros(0xffu32 << s) == s,
{
    let m = 0xffu32 << s;
    axiom_u32_trailing_zeros(m);
    assert(m != 0 && (m >> s) & 1u32 == 1u32) by (bit_vector)
        requires
            m == 0xffu32 << s,
            s <= 24,
    ;
    let t = u32_trailing_zeros(m);
    if t < s {
        assert((m >> t) & 1u32 == 0u32) by (bit_vector)
            requires
                m == 0xffu32 << s,
                t < s,
        ;
    }
    if t > s {
        assert((m >> s) & 1u32 == 0u32);
    }
}

/// Decoding undoes encoding: a word built from the bytes `r`, `g`, `b` at
/// the positions of three disjoint byte-wide channel masks decodes, through
/// those masks, back to exactly `r`, `g` and `b`.
pub proof fn lemma_channel_round_trip(r: u8, g: u8, b: u8, rs: u32, gs: u32, bs: u32)
    requires
        rs <= 24,
        gs <= 24,
        bs <= 24,
        rs + 8 <= gs || gs + 8 <= rs,
        rs + 8 <= bs || bs + 8 <= rs,
        gs + 8 <= bs || bs + 8 <= gs,
    ensures
        ({
            let word = ((r as u32) << rs) | ((g as u32) << gs) | ((b as u32) << bs);
            &&& channel_of(word, 0xffu32 << rs) == r
            &&& channel_of(word, 0xffu32 << gs) == g
            &&& channel_of(word, 0xffu32 << bs) == b
        }),
{
    lemma_byte_mask_shift(rs);
    lemma_byte_mask_shift(gs);
    lemma_byte_mask_shift(bs);
    let (r32, g32, b32) = (r as u32, g as u32, b as u32);
    let word = (r32 << rs) | (g32 << gs) | (b32 << bs);
    assert(r32 < 256 && g32 < 256 && b32 < 256);
    assert((0xffu32 << rs) != 0 && (((word & (0xffu32 << rs)) >> rs) & 0xff) == r32)
        by (bit_vector)
        requires
            word == (r32 << rs) | (g32 << gs) | (b32 << bs),
            r32 < 256, g32 < 256, b32 < 256,
            rs <= 24, gs <= 24, bs <= 24,
            rs + 8 <= gs || gs + 8 <= rs,
            rs + 8 <= bs || bs + 8 <= rs,
    ;
    assert((0xffu32 << gs) != 0 && (((word & (0xffu32 << gs)) >> gs) & 0xff) == g32)
        by (bit_vector)
        requires
            word == (r32 << rs) | (g32 << gs) | (b32 << bs),
            r32 < 256, g32 < 256, b32 < 256,
            rs <= 24, gs <= 24, bs <= 24,
            rs + 8 <= gs || gs + 8 <= rs,
            gs + 8 <= bs || bs + 8 <= gs,
    ;
    assert((0xffu32 << bs) != 0 && (((word & (0xffu32 << bs)) >> bs) & 0xff) == b32)
        by (bit_vector)
        requires
            word == (r32 << rs) | (g32 << gs) | (b32 << bs),
            r32 < 256, g32 < 256, b32 < 256,
            rs <= 24, gs <= 24, bs <= 24,
            rs + 8 <= bs || bs + 8 <= rs,
            gs + 8 <= bs || bs + 8 <= gs,
    ;
}

} // verus!
