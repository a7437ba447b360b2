//! The image transformer: turn a decoded upload half way round and encode
//! the result as a JPEG file.

use crate::error::ErrorKind;
use crate::error::IngestError;
use vstd::arithmetic::div_mod::lemma_div_pos_is_pos;
use vstd::arithmetic::div_mod::lemma_fundamental_div_mod;
use vstd::arithmetic::div_mod::lemma_fundamental_div_mod_converse;
use vstd::arithmetic::div_mod::lemma_mod_bound;
use vstd::arithmetic::div_mod::lemma_multiply_divide_lt;
use vstd::prelude::*;

verus! {

/// An image in memory: rows from top to bottom, pixels from left to right,
/// four samples (red, green, blue, alpha) of eight bits per pixel. It holds
/// exactly the samples of `width * height` pixels, and a row of it has no
/// more samples than a machine word can count.
#[derive(Debug, PartialEq, Eq)]
pub struct Raster {
    width: u32,
    height: u32,
    pixels: Vec<u8>,
}

/// An image in memory as a mathematical value.
pub struct RasterView {
    pub width: nat,
    pub height: nat,
    pub pixels: Seq<u8>,
}

impl View for Raster {
    type V = RasterView;

    closed spec fn view(&self) -> RasterView {
        RasterView { width: self.width as nat, height: self.height as nat, pixels: self.pixels@ }
    }
}

impl RasterView {
    /// The samples are exactly those of `width * height` pixels, and the
    /// samples of one row can be counted in a machine word, also where there
    /// is no row.
    pub open spec fn wf(self) -> bool {
        &&& self.pixels.len() == 4 * self.width * self.height
        &&& 4 * self.width <= usize::MAX
    }

    /// Where sample `channel` of the pixel in column `x` of row `y` stands.
    pub open spec fn index_of(self, x: int, y: int, channel: int) -> int {
        (y * self.width + x) * 4 + channel
    }

    /// The image turned by 180 degrees: the pixel at `(x, y)` is the one
    /// that stood at `(width - 1 - x, height - 1 - y)`.
    pub open spec fn half_turn(self) -> RasterView {
        RasterView {
            width: self.width,
            height: self.height,
            pixels: Seq::new(
                4 * self.width * self.height,
                |k: int|
                    {
                        let pixel = k / 4;
                        let x = pixel % (self.width as int);
                        let y = pixel / (self.width as int);
                        self.pixels[self.index_of(
                            self.width - 1 - x,
                            self.height - 1 - y,
                            k % 4,
                        )]
                    },
            ),
        }
    }
}

/// Where the half turn takes the sample at `k`: to the same channel of the
/// pixel in the opposite corner.
proof fn lemma_opposite_sample(width: int, height: int, k: int) -> (opposite: int)
    requires
        0 <= k < 4 * width * height,
        0 <= width,
        0 <= height,
    ensures
        0 < width,
        opposite == ((height - 1 - (k / 4) / width) * width + (width - 1 - (k / 4) % width)) * 4
            + k % 4,
        0 <= opposite < 4 * width * height,
        opposite % 4 == k % 4,
        (opposite / 4) % width == width - 1 - (k / 4) % width,
        (opposite / 4) / width == height - 1 - (k / 4) / width,
        k == (((k / 4) / width) * width + (k / 4) % width) * 4 + k % 4,
{
    let pixel = k / 4;
    let channel = k % 4;
    assert(width != 0 && pixel < width * height) by (nonlinear_arith)
        requires
            0 <= k < 4 * width * height,
            0 <= width,
            0 <= height,
            pixel == k / 4,
    ;
    let x = pixel % width;
    let y = pixel / width;
    lemma_fundamental_div_mod(pixel, width);
    lemma_mod_bound(pixel, width);
    lemma_div_pos_is_pos(pixel, width);
    lemma_multiply_divide_lt(pixel, width, height);
    assert(pixel == y * width + x) by (nonlinear_arith)
        requires
            pixel == width * y + x,
    ;
    let turned = (height - 1 - y) * width + (width - 1 - x);
    assert(0 <= turned < width * height) by (nonlinear_arith)
        requires
            0 <= x < width,
            0 <= y < height,
            turned == (height - 1 - y) * width + (width - 1 - x),
    ;
    lemma_fundamental_div_mod_converse(turned, width, height - 1 - y, width - 1 - x);
    let opposite = turned * 4 + channel;
    lemma_fundamental_div_mod_converse(opposite, 4, turned, channel);
    assert(0 <= opposite < 4 * width * height) by (nonlinear_arith)
        requires
            0 <= turned < width * height,
            0 <= channel < 4,
            opposite == turned * 4 + channel,
    ;
    opposite
}

impl RasterView {
    /// Turning an image half way round twice gives the image back.
    pub proof fn half_turn_twice(self)
        requires
            self.wf(),
        ensures
            self.half_turn().wf(),
            self.half_turn().half_turn() == self,
    {
        let once = self.half_turn();
        let twice = once.half_turn();
        let width = self.width as int;
        let height = self.height as int;
        assert forall|k: int| 0 <= k < self.pixels.len() implies twice.pixels[k]
            == self.pixels[k] by {
            let there = lemma_opposite_sample(width, height, k);
            let back = lemma_opposite_sample(width, height, there);
            assert(back == k);
        }
        assert(twice.pixels =~= self.pixels);
    }
}

/// The JPEG file that the image crate writes for an eight-bit RGBA image, or
/// the wording of its refusal.
pub uninterp spec fn jpeg_encoding(image: RasterView) -> Result<Seq<u8>, Seq<char>>;

/// The file derived from a decoded image: the image turned half way round,
/// as a JPEG file; or the wording of the encoder's refusal.
pub open spec fn derived_image(image: RasterView) -> Result<Seq<u8>, Seq<char>> {
    jpeg_encoding(image.half_turn())
}

/// `image::imageops::rotate180` on an RGBA buffer: a new buffer of the same
/// dimensions in which the pixel read at `(x, y)` is put at
/// `(width - 1 - x, height - 1 - y)`.
#[verifier::external_body]
fn rotate180(image: &Raster) -> (out: Raster)
    requires
        image@.wf(),
    ensures
        out@ == image@.half_turn(),
{
    let source: image::ImageBuffer<image::Rgba<u8>, &[u8]> = image::ImageBuffer::from_raw(
        image.width,
        image.height,
        image.pixels.as_slice(),
    ).unwrap();
    let turned = image::imageops::rotate180(&source);
    Raster { width: turned.width(), height: turned.height(), pixels: turned.into_raw() }
}

/// `image::write_buffer_with_format` with the JPEG format, into memory: the
/// encoder that `ImageBuffer::save` runs for a path that ends in `.jpg`. It
/// refuses dimensions that do not fit sixteen bits, and its refusal is
/// handed back in the words of its `Display`. The result depends on the
/// samples and the dimensions alone.
#[verifier::external_body]
fn write_jpeg(image: &Raster) -> (r: Result<Vec<u8>, String>)
    requires
        image@.wf(),
    ensures
        match r {
            Ok(bytes) => jpeg_encoding(image@) == Ok::<Seq<u8>, Seq<char>>(bytes@),
            Err(refusal) => jpeg_encoding(image@) == Err::<Seq<u8>, Seq<char>>(refusal@),
        },
{
    let mut bytes: Vec<u8> = Vec::new();
    match image::write_buffer_with_format(
        &mut std::io::Cursor::new(&mut bytes),
        image.pixels.as_slice(),
        image.width,
        image.height,
        image::ColorType::Rgba8,
        image::ImageFormat::Jpeg,
    ) {
        Ok(()) => Ok(bytes),
        Err(e) => Err(e.to_string()),
    }
}

impl Raster {
    #[verifier::type_invariant]
    spec fn well_formed(self) -> bool {
        &&& self.pixels@.len() == 4 * (self.width as nat) * (self.height as nat)
        &&& 4 * (self.width as nat) <= usize::MAX
    }

    /// An image of the given dimensions; `None` unless `pixels` holds exactly
    /// four samples per pixel and the samples of one row can be counted in a
    /// machine word. On a word of 64 bits every width can.
    pub fn new(width: u32, height: u32, pixels: Vec<u8>) -> (r: Option<Raster>)
        ensures
            r is Some <==> {
                &&& pixels@.len() == 4 * (width as nat) * (height as nat)
                &&& 4 * (width as nat) <= usize::MAX
            },
            r matches Some(image) ==> image@.wf() && image@ == (RasterView {
                width: width as nat,
                height: height as nat,
                pixels: pixels@,
            }),
    {
        assert((width as nat) * (height as nat) <= 0xffff_ffff * 0xffff_ffff) by (nonlinear_arith)
            requires
                width <= 0xffff_ffff,
                height <= 0xffff_ffff,
        ;
        let area: u64 = (width as u64) * (height as u64);
        let samples: u128 = 4 * (area as u128);
        assert(samples == 4 * (width as nat) * (height as nat)) by (nonlinear_arith)
            requires
                samples == 4 * area,
                area == (width as nat) * (height as nat),
        ;
        if pixels.len() as u128 == samples && 4 * (width as u128) <= usize::MAX as u128 {
            Some(Raster { width, height, pixels })
        } else {
            None
        }
    }

    pub fn width(&self) -> (width: u32)
        ensures
            width == self@.width,
    {
        self.width
    }

    pub fn height(&self) -> (height: u32)
        ensures
            height == self@.height,
    {
        self.height
    }

    /// The samples, row by row.
    pub fn pixels(&self) -> (pixels: &Vec<u8>)
        ensures
            pixels@ == self@.pixels,
            self@.wf(),
    {
        proof {
            use_type_invariant(self);
        }
        &self.pixels
    }

    /// The image turned by 180 degrees.
    pub fn half_turn(&self) -> (out: Raster)
        ensures
            out@ == self@.half_turn(),
    {
        proof {
            use_type_invariant(self);
        }
        rotate180(self)
    }

    /// The image as a JPEG file. An image that the encoder refuses is a
    /// storage error, in the encoder's words.
    pub fn to_jpeg(&self) -> (r: Result<Vec<u8>, IngestError>)
        ensures
            match r {
                Ok(bytes) => jpeg_encoding(self@) == Ok::<Seq<u8>, Seq<char>>(bytes@),
                Err(e) => e@ == ErrorKind::StorageError && jpeg_encoding(self@) == Err::<
                    Seq<u8>,
                    Seq<char>,
                >(e.text()),
            },
    {
        proof {
            use_type_invariant(self);
        }
        match write_jpeg(self) {
            Ok(bytes) => Ok(bytes),
            Err(refusal) => Err(IngestError::StorageError(refusal)),
        }
    }
}

/// Derives the file to store beside an upload from the decoded upload: the
/// image turned half way round and encoded as JPEG.
pub fn derive_image(image: &Raster) -> (r: Result<Vec<u8>, IngestError>)
    ensures
        match r {
            Ok(bytes) => derived_image(image@) == Ok::<Seq<u8>, Seq<char>>(bytes@),
            Err(e) => e@ == ErrorKind::StorageError && derived_image(image@) == Err::<
                Seq<u8>,
                Seq<char>,
            >(e.text()),
        },
{
    image.half_turn().to_jpeg()
}

} // verus!
