//! From the bytes of a PNG file to a pixel buffer and the GPU format that
//! tells how to read it.
//!
//! Decoding is done by the `png` crate. What this module decides is which
//! pixel format a colour layout and bit depth stand for, how many bytes the
//! pixel buffer takes, and what becomes of a file that cannot be decoded.

use vstd::prelude::*;

verus! {

/// Layout of the samples of a pixel in a PNG image.
#[derive(Clone, Copy, Debug, PartialEq, Eq, Structural)]
pub enum ColorType {
    /// One grey sample.
    Grayscale,
    /// Red, green and blue.
    Rgb,
    /// One index into a palette.
    Indexed,
    /// One grey sample and alpha.
    GrayscaleAlpha,
    /// Red, green, blue and alpha.
    Rgba,
}

/// Number of bits of one sample in a PNG image.
#[derive(Clone, Copy, Debug, PartialEq, Eq, Structural)]
pub enum BitDepth {
    One,
    Two,
    Four,
    Eight,
    Sixteen,
}

impl ColorType {
    /// The colour type that a PNG header's colour-type byte stands for.
    pub open spec fn of_code(code: u8) -> Option<ColorType> {
        if code == 0 {
            Some(ColorType::Grayscale)
        } else if code == 2 {
            Some(ColorType::Rgb)
        } else if code == 3 {
            Some(ColorType::Indexed)
        } else if code == 4 {
            Some(ColorType::GrayscaleAlpha)
        } else if code == 6 {
            Some(ColorType::Rgba)
        } else {
            None
        }
    }

    /// Number of samples that make up one pixel.
    pub open spec fn samples(self) -> int {
        match self {
            ColorType::Grayscale => 1,
            ColorType::Rgb => 3,
            ColorType::Indexed => 1,
            ColorType::GrayscaleAlpha => 2,
            ColorType::Rgba => 4,
        }
    }

    /// Reads a PNG header's colour-type byte.
    pub fn from_code(code: u8) -> (color: Option<ColorType>)
        ensures
            color == ColorType::of_code(code),
    {
        match code {
            0 => Some(ColorType::Grayscale),
            2 => Some(ColorType::Rgb),
            3 => Some(ColorType::Indexed),
            4 => Some(ColorType::GrayscaleAlpha),
            6 => Some(ColorType::Rgba),
            _ => None,
        }
    }
}

impl BitDepth {
    /// The bit depth that a PNG header's bit-depth byte stands for.
    pub open spec fn of_code(code: u8) -> Option<BitDepth> {
        if code == 1 {
            Some(BitDepth::One)
        } else if code == 2 {
            Some(BitDepth::Two)
        } else if code == 4 {
            Some(BitDepth::Four)
        } else if code == 8 {
            Some(BitDepth::Eight)
        } else if code == 16 {
            Some(BitDepth::Sixteen)
        } else {
            None
        }
    }

    /// Number of bits of one sample.
    pub open spec fn bits(self) -> int {
        match self {
            BitDepth::One => 1,
            BitDepth::Two => 2,
            BitDepth::Four => 4,
            BitDepth::Eight => 8,
            BitDepth::Sixteen => 16,
        }
    }

    /// Reads a PNG header's bit-depth byte.
    pub fn from_code(code: u8) -> (depth: Option<BitDepth>)
        ensures
            depth == BitDepth::of_code(code),
    {
        match code {
            1 => Some(BitDepth::One),
            2 => Some(BitDepth::Two),
            4 => Some(BitDepth::Four),
            8 => Some(BitDepth::Eight),
            16 => Some(BitDepth::Sixteen),
            _ => None,
        }
    }
}

/// How the GPU reads the bytes of a pixel. `Unorm` formats map every
/// sample to the range from 0 to 1; the `Srgb` format also decodes it from
/// the sRGB transfer curve.
#[derive(Clone, Copy, Debug, PartialEq, Eq, Structural)]
pub enum PixelFormat {
    R8Unorm,
    R8G8Unorm,
    R8G8B8Unorm,
    R8G8B8A8Unorm,
    R8G8B8A8Srgb,
    R16Unorm,
    R16G16Unorm,
    R16G16B16Unorm,
    R16G16B16A16Unorm,
}

impl PixelFormat {
    /// Number of samples the GPU reads for one pixel.
    pub open spec fn channels(self) -> int {
        match self {
            PixelFormat::R8Unorm | PixelFormat::R16Unorm => 1,
            PixelFormat::R8G8Unorm | PixelFormat::R16G16Unorm => 2,
            PixelFormat::R8G8B8Unorm | PixelFormat::R16G16B16Unorm => 3,
            PixelFormat::R8G8B8A8Unorm
            | PixelFormat::R8G8B8A8Srgb
            | PixelFormat::R16G16B16A16Unorm => 4,
        }
    }

    /// Number of bits of one sample.
    pub open spec fn sample_bits(self) -> int {
        match self {
            PixelFormat::R8Unorm
            | PixelFormat::R8G8Unorm
            | PixelFormat::R8G8B8Unorm
            | PixelFormat::R8G8B8A8Unorm
            | PixelFormat::R8G8B8A8Srgb => 8,
            PixelFormat::R16Unorm
            | PixelFormat::R16G16Unorm
            | PixelFormat::R16G16B16Unorm
            | PixelFormat::R16G16B16A16Unorm => 16,
        }
    }

    /// Number of bytes the GPU reads for one pixel.
    pub open spec fn texel_bytes(self) -> int {
        self.channels() * self.sample_bits() / 8
    }

    /// Number of bytes the GPU reads for one pixel.
    pub fn texel_size(self) -> (bytes: u32)
        ensures
            bytes == self.texel_bytes(),
    {
        match self {
            PixelFormat::R8Unorm => 1,
            PixelFormat::R8G8Unorm | PixelFormat::R16Unorm => 2,
            PixelFormat::R8G8B8Unorm => 3,
            PixelFormat::R8G8B8A8Unorm | PixelFormat::R8G8B8A8Srgb | PixelFormat::R16G16Unorm => 4,
            PixelFormat::R16G16B16Unorm => 6,
            PixelFormat::R16G16B16A16Unorm => 8,
        }
    }
}

/// The pixel format chosen for an image.
#[derive(Clone, Copy, Debug, PartialEq, Eq, Structural)]
pub struct FormatChoice {
    /// How the GPU reads a pixel.
    pub format: PixelFormat,
    /// Number of bytes set aside for one pixel.
    pub bytes_per_pixel: u32,
    /// Whether the layout is one the viewer knows. When it is not, the
    /// format is a stand-in and the texture may render with wrong colours.
    pub recognized: bool,
}

/// The format used when a layout is not recognized: four samples of eight
/// bits.
pub open spec fn fallback_choice() -> FormatChoice {
    FormatChoice { format: PixelFormat::R8G8B8A8Unorm, bytes_per_pixel: 4, recognized: false }
}

/// The layouts the viewer knows: grey, grey with alpha, colour, and colour
/// with alpha, in eight or sixteen bits per sample.
pub open spec fn is_recognized(color: ColorType, depth: BitDepth) -> bool {
    !(color is Indexed) && (depth is Eight || depth is Sixteen)
}

/// The pixel format that stands for a colour layout and bit depth.
pub open spec fn format_for(color: ColorType, depth: BitDepth) -> FormatChoice {
    match (color, depth) {
        (ColorType::Grayscale, BitDepth::Eight) => FormatChoice {
            format: PixelFormat::R8Unorm,
            bytes_per_pixel: 1,
            recognized: true,
        },
        (ColorType::GrayscaleAlpha, BitDepth::Eight) => FormatChoice {
            format: PixelFormat::R8G8Unorm,
            bytes_per_pixel: 2,
            recognized: true,
        },
        (ColorType::Rgb, BitDepth::Eight) => FormatChoice {
            format: PixelFormat::R8G8B8Unorm,
            bytes_per_pixel: 3,
            recognized: true,
        },
        (ColorType::Rgba, BitDepth::Eight) => FormatChoice {
            format: PixelFormat::R8G8B8A8Srgb,
            bytes_per_pixel: 4,
            recognized: true,
        },
        (ColorType::Grayscale, BitDepth::Sixteen) => FormatChoice {
            format: PixelFormat::R16Unorm,
            bytes_per_pixel: 2,
            recognized: true,
        },
        (ColorType::GrayscaleAlpha, BitDepth::Sixteen) => FormatChoice {
            format: PixelFormat::R16G16Unorm,
            bytes_per_pixel: 4,
            recognized: true,
        },
        (ColorType::Rgb, BitDepth::Sixteen) => FormatChoice {
            format: PixelFormat::R16G16B16Unorm,
            bytes_per_pixel: 6,
            recognized: true,
        },
        (ColorType::Rgba, BitDepth::Sixteen) => FormatChoice {
            format: PixelFormat::R16G16B16A16Unorm,
            bytes_per_pixel: 8,
            recognized: true,
        },
        _ => fallback_choice(),
    }
}

/// Every layout gets a format, and the bytes set aside for a pixel are the
/// bytes the GPU reads in that format. A layout the viewer knows gets a
/// format with as many samples, of as many bits, as the layout has; every
/// other layout gets the four-byte stand-in and is marked as not
/// recognized.
pub proof fn lemma_format_for_is_total(color: ColorType, depth: BitDepth)
    ensures
        format_for(color, depth).recognized == is_recognized(color, depth),
        format_for(color, depth).bytes_per_pixel == format_for(color, depth).format.texel_bytes(),
        is_recognized(color, depth) ==> format_for(color, depth).format.channels()
            == color.samples() && format_for(color, depth).format.sample_bits() == depth.bits(),
        !is_recognized(color, depth) ==> format_for(color, depth) == fallback_choice(),
        1 <= format_for(color, depth).bytes_per_pixel <= 8,
{
}

/// Chooses the pixel format for a colour layout and bit depth. A layout
/// that is not recognized is no error: it gets the stand-in format, and the
/// choice says so.
pub fn select_format(color: ColorType, depth: BitDepth) -> (choice: FormatChoice)
    ensures
        choice == format_for(color, depth),
{
    let (format, bytes_per_pixel): (PixelFormat, u32) = match (color, depth) {
        (ColorType::Grayscale, BitDepth::Sixteen) => (PixelFormat::R16Unorm, 2),
        (ColorType::GrayscaleAlpha, BitDepth::Sixteen) => (PixelFormat::R16G16Unorm, 4),
        (ColorType::Grayscale, BitDepth::Eight) => (PixelFormat::R8Unorm, 1),
        (ColorType::GrayscaleAlpha, BitDepth::Eight) => (PixelFormat::R8G8Unorm, 2),
        (ColorType::Rgb, BitDepth::Sixteen) => (PixelFormat::R16G16B16Unorm, 6),
        (ColorType::Rgb, BitDepth::Eight) => (PixelFormat::R8G8B8Unorm, 3),
        (ColorType::Rgba, BitDepth::Sixteen) => (PixelFormat::R16G16B16A16Unorm, 8),
        (ColorType::Rgba, BitDepth::Eight) => (PixelFormat::R8G8B8A8Srgb, 4),
        _ => {
            return FormatChoice {
                format: PixelFormat::R8G8B8A8Unorm,
                bytes_per_pixel: 4,
                recognized: false,
            };
        },
    };
    FormatChoice { format, bytes_per_pixel, recognized: true }
}

/// What the decoder reports of an image before its pixels are read.
#[derive(Clone, Copy, Debug, PartialEq, Eq, Structural)]
pub struct ImageHeader {
    /// Width in pixels.
    pub width: u32,
    /// Height in pixels.
    pub height: u32,
    /// Layout of the samples of a decoded pixel.
    pub color_type: ColorType,
    /// Number of bits of a decoded sample.
    pub bit_depth: BitDepth,
}

/// Why a texture could not be prepared.
#[derive(Clone, Copy, Debug, PartialEq, Eq, Structural)]
pub enum TextureError {
    /// The stream holds no header that the decoder accepts.
    BadHeader,
    /// The pixel buffer would take more than `u32::MAX` bytes.
    TooLarge,
    /// The pixels could not be decoded into the buffer set aside for them.
    BadFrame,
}

/// The pixel buffer to set aside for an image, and how the GPU reads it.
#[derive(Clone, Copy, Debug, PartialEq, Eq, Structural)]
pub struct TexturePlan {
    /// Width in pixels.
    pub width: u32,
    /// Height in pixels.
    pub height: u32,
    /// The pixel format and whether it is a stand-in.
    pub choice: FormatChoice,
    /// Number of bytes of the pixel buffer.
    pub byte_len: u32,
}

/// Number of bytes set aside for the pixels of an image: its area times the
/// bytes of one pixel in the chosen format.
pub open spec fn byte_count(header: ImageHeader) -> int {
    header.width * header.height * format_for(header.color_type, header.bit_depth).bytes_per_pixel
}

/// The header that the decoder's numbers stand for, if the two codes are
/// those of a colour type and of a bit depth.
pub open spec fn header_of(raw: (u32, u32, u8, u8)) -> Option<ImageHeader> {
    match (ColorType::of_code(raw.2), BitDepth::of_code(raw.3)) {
        (Some(color_type), Some(bit_depth)) => Some(
            ImageHeader { width: raw.0, height: raw.1, color_type, bit_depth },
        ),
        _ => None,
    }
}

/// The plan for an image, or `TooLarge` when its pixel buffer cannot be
/// measured in 32 bits.
pub open spec fn plan_for(header: ImageHeader) -> Result<TexturePlan, TextureError> {
    if byte_count(header) > u32::MAX {
        Err(TextureError::TooLarge)
    } else {
        Ok(
            TexturePlan {
                width: header.width,
                height: header.height,
                choice: format_for(header.color_type, header.bit_depth),
                byte_len: byte_count(header) as u32,
            },
        )
    }
}

/// Turns the numbers of a PNG header into an image header.
pub fn interpret_header(width: u32, height: u32, color_code: u8, depth_code: u8) -> (header:
    Option<ImageHeader>)
    ensures
        header == header_of((width, height, color_code, depth_code)),
{
    match (ColorType::from_code(color_code), BitDepth::from_code(depth_code)) {
        (Some(color_type), Some(bit_depth)) => Some(
            ImageHeader { width, height, color_type, bit_depth },
        ),
        _ => None,
    }
}

/// Chooses the pixel format of an image and measures its pixel buffer.
pub fn plan_texture(header: ImageHeader) -> (plan: Result<TexturePlan, TextureError>)
    ensures
        plan == plan_for(header),
{
    let choice = select_format(header.color_type, header.bit_depth);
    proof {
        lemma_format_for_is_total(header.color_type, header.bit_depth);
        assert(header.width * header.height <= 0xffff_ffff * 0xffff_ffff) by (nonlinear_arith)
            requires
                header.width <= 0xffff_ffff,
                header.height <= 0xffff_ffff,
        ;
    }
    let area: u64 = header.width as u64 * header.height as u64;
    if area > u32::MAX as u64 {
        proof {
            assert(area * choice.bytes_per_pixel >= area) by (nonlinear_arith)
                requires
                    choice.bytes_per_pixel >= 1,
                    area >= 0,
            ;
        }
        return Err(TextureError::TooLarge);
    }
    proof {
        assert(area * choice.bytes_per_pixel <= 0xffff_ffff * 8) by (nonlinear_arith)
            requires
                area <= 0xffff_ffff,
                choice.bytes_per_pixel <= 8,
        ;
    }
    let bytes: u64 = area * choice.bytes_per_pixel as u64;
    if bytes > u32::MAX as u64 {
        return Err(TextureError::TooLarge);
    }
    Ok(TexturePlan { width: header.width, height: header.height, choice, byte_len: bytes as u32 })
}

/// A decoded image, ready to be uploaded.
#[derive(Debug)]
pub struct Texture {
    /// Width in pixels.
    pub width: u32,
    /// Height in pixels.
    pub height: u32,
    /// How the GPU reads a pixel.
    pub format: PixelFormat,
    /// Number of bytes set aside for one pixel.
    pub bytes_per_pixel: u32,
    /// Whether the image's layout is one the viewer knows; when it is not,
    /// a warning is due and the texture may render with wrong colours.
    pub recognized: bool,
    /// The pixels, row by row.
    pub pixels: Vec<u8>,
}

/// What a texture is, as plain values.
pub struct TextureView {
    pub width: u32,
    pub height: u32,
    pub format: PixelFormat,
    pub bytes_per_pixel: u32,
    pub recognized: bool,
    pub pixels: Seq<u8>,
}

impl View for Texture {
    type V = TextureView;

    open spec fn view(&self) -> TextureView {
        TextureView {
            width: self.width,
            height: self.height,
            format: self.format,
            bytes_per_pixel: self.bytes_per_pixel,
            recognized: self.recognized,
            pixels: self.pixels@,
        }
    }
}

/// The texture that a plan and the decoded pixels make.
pub open spec fn texture_from(plan: TexturePlan, pixels: Seq<u8>) -> TextureView {
    TextureView {
        width: plan.width,
        height: plan.height,
        format: plan.choice.format,
        bytes_per_pixel: plan.choice.bytes_per_pixel,
        recognized: plan.choice.recognized,
        pixels,
    }
}

/// A buffer of `len` zero bytes.
pub open spec fn zeroed(len: nat) -> Seq<u8> {
    Seq::new(len, |i: int| 0u8)
}

impl Texture {
    /// Puts a plan and the pixels decoded for it together.
    pub fn from_frame(plan: TexturePlan, pixels: Vec<u8>) -> (texture: Texture)
        ensures
            texture@ == texture_from(plan, pixels@),
    {
        Texture {
            width: plan.width,
            height: plan.height,
            format: plan.choice.format,
            bytes_per_pixel: plan.choice.bytes_per_pixel,
            recognized: plan.choice.recognized,
            pixels,
        }
    }
}

/// `png::DecodingError`, the decoder's account of what is wrong with a
/// stream. Nothing is read from it: whatever it says, the texture is
/// refused.
#[verifier::external_type_specification]
#[verifier::external_body]
pub struct ExDecodingError(png::DecodingError);

/// What `png`'s decoder, with its default settings, reports of the stream
/// `data` once it has read up to the image data: width, height, the code of
/// the colour type and the code of the bit depth of the pixels it will
/// produce. `None` when the decoder rejects the stream.
pub uninterp spec fn png_header(data: Seq<u8>) -> Option<(u32, u32, u8, u8)>;

/// What `png`'s decoder, with its default settings, leaves in a buffer that
/// held `buffer` after decoding the first frame of the stream `data` into
/// it. `None` when the decoder rejects the stream or the buffer.
pub uninterp spec fn png_frame(data: Seq<u8>, buffer: Seq<u8>) -> Option<Seq<u8>>;

/// Calls `png::Decoder::new` on the bytes and `Decoder::read_info` on the
/// decoder. The contract names the four numbers of the output info that
/// `read_info` returns; it claims nothing else of them.
#[verifier::external_body]
fn read_header(data: &[u8]) -> (r: Result<(u32, u32, u8, u8), png::DecodingError>)
    ensures
        r matches Ok(raw) ==> png_header(data@) == Some(raw),
        r is Err ==> png_header(data@) is None,
{
    let (info, _) = png::Decoder::new(data).read_info()?;
    Ok((info.width, info.height, info.color_type as u8, info.bit_depth as u8))
}

/// Opens the stream as `read_header` does and calls `Reader::next_frame`
/// with the buffer. The contract names what the buffer holds afterwards when
/// the call succeeds; a slice cannot change its length, so the buffer keeps
/// its length either way.
#[verifier::external_body]
fn read_frame(data: &[u8], buffer: &mut Vec<u8>) -> (r: Result<(), png::DecodingError>)
    ensures
        final(buffer)@.len() == old(buffer)@.len(),
        r is Ok ==> png_frame(data@, old(buffer)@) == Some(final(buffer)@),
        r is Err ==> png_frame(data@, old(buffer)@) is None,
{
    let (_, mut reader) = png::Decoder::new(data).read_info()?;
    reader.next_frame(buffer)
}

/// The texture that the bytes of a PNG file stand for: the header is read,
/// the format chosen and the buffer measured, and the first frame decoded
/// into a zeroed buffer of that size.
pub open spec fn decoded(data: Seq<u8>) -> Result<TextureView, TextureError> {
    match png_header(data) {
        None => Err(TextureError::BadHeader),
        Some(raw) => match header_of(raw) {
            None => Err(TextureError::BadHeader),
            Some(header) => match plan_for(header) {
                Err(error) => Err(error),
                Ok(plan) => match png_frame(data, zeroed(plan.byte_len as nat)) {
                    None => Err(TextureError::BadFrame),
                    Some(pixels) => Ok(texture_from(plan, pixels)),
                },
            },
        },
    }
}

/// Decodes the bytes of a PNG file into a texture.
///
/// The pixel format follows from the colour layout and bit depth that the
/// decoder reports. A layout the viewer does not know is no error: the
/// texture gets the four-byte stand-in format and `recognized` is false.
pub fn prep_texture(data: &[u8]) -> (r: Result<Texture, TextureError>)
    ensures
        match r {
            Ok(texture) => decoded(data@) == Ok::<TextureView, TextureError>(texture@),
            Err(error) => decoded(data@) == Err::<TextureView, TextureError>(error),
        },
        r matches Ok(texture) ==> texture.pixels@.len() == texture.width * texture.height
            * texture.bytes_per_pixel,
{
    let raw = match read_header(data) {
        Ok(raw) => raw,
        Err(_) => {
            return Err(TextureError::BadHeader);
        },
    };
    let header = match interpret_header(raw.0, raw.1, raw.2, raw.3) {
        Some(header) => header,
        None => {
            return Err(TextureError::BadHeader);
        },
    };
    let plan = match plan_texture(header) {
        Ok(plan) => plan,
        Err(error) => {
            return Err(error);
        },
    };
    let mut pixels: Vec<u8> = vec![0u8; plan.byte_len as usize];
    assert(pixels@ == zeroed(plan.byte_len as nat));
    match read_frame(data, &mut pixels) {
        Ok(()) => Ok(Texture::from_frame(plan, pixels)),
        Err(_) => Err(TextureError::BadFrame),
    }
}

} // verus!
