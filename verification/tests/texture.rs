use pbr_viewer::texture::{
    interpret_header, plan_texture, prep_texture, select_format, BitDepth, ColorType,
    FormatChoice, ImageHeader, PixelFormat, Texture, TextureError, TexturePlan,
};

fn encode(
    width: u32,
    height: u32,
    color: png::ColorType,
    depth: png::BitDepth,
    palette: Option<Vec<u8>>,
    data: &[u8],
) -> Vec<u8> {
    let mut out = Vec::new();
    {
        let mut encoder = png::Encoder::new(&mut out, width, height);
        encoder.set_color(color);
        encoder.set_depth(depth);
        if let Some(palette) = palette {
            encoder.set_palette(palette);
        }
        let mut writer = encoder.write_header().unwrap();
        writer.write_image_data(data).unwrap();
    }
    out
}

const COLORS: [ColorType; 5] = [
    ColorType::Grayscale,
    ColorType::Rgb,
    ColorType::Indexed,
    ColorType::GrayscaleAlpha,
    ColorType::Rgba,
];

const DEPTHS: [BitDepth; 5] = [
    BitDepth::One,
    BitDepth::Two,
    BitDepth::Four,
    BitDepth::Eight,
    BitDepth::Sixteen,
];

#[test]
fn color_type_codes() {
    assert_eq!(ColorType::from_code(0), Some(ColorType::Grayscale));
    assert_eq!(ColorType::from_code(2), Some(ColorType::Rgb));
    assert_eq!(ColorType::from_code(3), Some(ColorType::Indexed));
    assert_eq!(ColorType::from_code(4), Some(ColorType::GrayscaleAlpha));
    assert_eq!(ColorType::from_code(6), Some(ColorType::Rgba));
    assert_eq!(ColorType::from_code(1), None);
    assert_eq!(ColorType::from_code(5), None);
    assert_eq!(ColorType::from_code(7), None);
    assert_eq!(ColorType::from_code(255), None);
}

#[test]
fn bit_depth_codes() {
    assert_eq!(BitDepth::from_code(1), Some(BitDepth::One));
    assert_eq!(BitDepth::from_code(2), Some(BitDepth::Two));
    assert_eq!(BitDepth::from_code(4), Some(BitDepth::Four));
    assert_eq!(BitDepth::from_code(8), Some(BitDepth::Eight));
    assert_eq!(BitDepth::from_code(16), Some(BitDepth::Sixteen));
    assert_eq!(BitDepth::from_code(0), None);
    assert_eq!(BitDepth::from_code(3), None);
    assert_eq!(BitDepth::from_code(32), None);
}

#[test]
fn format_table() {
    let table = [
        (ColorType::Grayscale, BitDepth::Sixteen, PixelFormat::R16Unorm, 2),
        (ColorType::GrayscaleAlpha, BitDepth::Sixteen, PixelFormat::R16G16Unorm, 4),
        (ColorType::Grayscale, BitDepth::Eight, PixelFormat::R8Unorm, 1),
        (ColorType::GrayscaleAlpha, BitDepth::Eight, PixelFormat::R8G8Unorm, 2),
        (ColorType::Rgb, BitDepth::Sixteen, PixelFormat::R16G16B16Unorm, 6),
        (ColorType::Rgb, BitDepth::Eight, PixelFormat::R8G8B8Unorm, 3),
        (ColorType::Rgba, BitDepth::Sixteen, PixelFormat::R16G16B16A16Unorm, 8),
        (ColorType::Rgba, BitDepth::Eight, PixelFormat::R8G8B8A8Srgb, 4),
    ];
    for (color, depth, format, bytes_per_pixel) in table {
        assert_eq!(
            select_format(color, depth),
            FormatChoice {
                format,
                bytes_per_pixel,
                recognized: true
            }
        );
    }
}

#[test]
fn palette_image_falls_back_to_four_bytes_without_failing() {
    let fallback = FormatChoice {
        format: PixelFormat::R8G8B8A8Unorm,
        bytes_per_pixel: 4,
        recognized: false,
    };
    for depth in DEPTHS {
        assert_eq!(select_format(ColorType::Indexed, depth), fallback);
    }
}

#[test]
fn shallow_bit_depths_fall_back_to_four_bytes() {
    let fallback = FormatChoice {
        format: PixelFormat::R8G8B8A8Unorm,
        bytes_per_pixel: 4,
        recognized: false,
    };
    for color in COLORS {
        for depth in [BitDepth::One, BitDepth::Two, BitDepth::Four] {
            assert_eq!(select_format(color, depth), fallback);
        }
    }
}

#[test]
fn every_layout_gets_a_format() {
    let mut recognized = 0;
    for color in COLORS {
        for depth in DEPTHS {
            let choice = select_format(color, depth);
            assert!(choice.bytes_per_pixel >= 1 && choice.bytes_per_pixel <= 8);
            if choice.recognized {
                recognized += 1;
            } else {
                assert_eq!(choice.format, PixelFormat::R8G8B8A8Unorm);
                assert_eq!(choice.bytes_per_pixel, 4);
            }
        }
    }
    assert_eq!(recognized, 8);
}

#[test]
fn header_from_codes() {
    assert_eq!(
        interpret_header(640, 480, 6, 8),
        Some(ImageHeader {
            width: 640,
            height: 480,
            color_type: ColorType::Rgba,
            bit_depth: BitDepth::Eight
        })
    );
    assert_eq!(interpret_header(640, 480, 5, 8), None);
    assert_eq!(interpret_header(640, 480, 6, 9), None);
}

#[test]
fn plan_measures_the_buffer() {
    let header = ImageHeader {
        width: 1024,
        height: 512,
        color_type: ColorType::Rgb,
        bit_depth: BitDepth::Eight,
    };
    assert_eq!(
        plan_texture(header),
        Ok(TexturePlan {
            width: 1024,
            height: 512,
            choice: FormatChoice {
                format: PixelFormat::R8G8B8Unorm,
                bytes_per_pixel: 3,
                recognized: true
            },
            byte_len: 1_572_864,
        })
    );
}

#[test]
fn plan_of_an_unknown_layout_sets_aside_four_bytes_per_pixel() {
    let header = ImageHeader {
        width: 7,
        height: 5,
        color_type: ColorType::Grayscale,
        bit_depth: BitDepth::One,
    };
    let plan = plan_texture(header).unwrap();
    assert_eq!(plan.byte_len, 140);
    assert!(!plan.choice.recognized);
    assert_eq!(plan.choice.format, PixelFormat::R8G8B8A8Unorm);
}

#[test]
fn plan_of_an_empty_image_is_an_empty_buffer() {
    let header = ImageHeader {
        width: 0,
        height: 9,
        color_type: ColorType::Rgba,
        bit_depth: BitDepth::Eight,
    };
    assert_eq!(plan_texture(header).unwrap().byte_len, 0);
}

#[test]
fn plan_refuses_a_buffer_beyond_32_bits() {
    let mut header = ImageHeader {
        width: 65536,
        height: 65536,
        color_type: ColorType::Grayscale,
        bit_depth: BitDepth::Eight,
    };
    assert_eq!(plan_texture(header), Err(TextureError::TooLarge));
    header.width = 65535;
    assert_eq!(plan_texture(header).unwrap().byte_len, 4_294_901_760);
    header.color_type = ColorType::GrayscaleAlpha;
    assert_eq!(plan_texture(header), Err(TextureError::TooLarge));
    header.width = u32::MAX;
    header.height = u32::MAX;
    header.color_type = ColorType::Rgba;
    header.bit_depth = BitDepth::Sixteen;
    assert_eq!(plan_texture(header), Err(TextureError::TooLarge));
    header.height = 1;
    header.color_type = ColorType::Grayscale;
    header.bit_depth = BitDepth::Eight;
    assert_eq!(plan_texture(header).unwrap().byte_len, u32::MAX);
}

#[test]
fn texture_from_frame_takes_the_plan() {
    let plan = TexturePlan {
        width: 2,
        height: 1,
        choice: FormatChoice {
            format: PixelFormat::R8G8Unorm,
            bytes_per_pixel: 2,
            recognized: true,
        },
        byte_len: 4,
    };
    let texture = Texture::from_frame(plan, vec![1, 2, 3, 4]);
    assert_eq!(texture.width, 2);
    assert_eq!(texture.height, 1);
    assert_eq!(texture.format, PixelFormat::R8G8Unorm);
    assert_eq!(texture.bytes_per_pixel, 2);
    assert!(texture.recognized);
    assert_eq!(texture.pixels, vec![1, 2, 3, 4]);
}

#[test]
fn prep_texture_decodes_rgba() {
    let pixels: Vec<u8> = (0..24).collect();
    let file = encode(3, 2, png::ColorType::RGBA, png::BitDepth::Eight, None, &pixels);
    let texture = prep_texture(&file).unwrap();
    assert_eq!(texture.width, 3);
    assert_eq!(texture.height, 2);
    assert_eq!(texture.format, PixelFormat::R8G8B8A8Srgb);
    assert_eq!(texture.bytes_per_pixel, 4);
    assert!(texture.recognized);
    assert_eq!(texture.pixels, pixels);
    assert_ne!(texture.pixels, file);
}

#[test]
fn prep_texture_decodes_rgb() {
    let pixels: Vec<u8> = (100..112).collect();
    let file = encode(2, 2, png::ColorType::RGB, png::BitDepth::Eight, None, &pixels);
    let texture = prep_texture(&file).unwrap();
    assert_eq!(texture.format, PixelFormat::R8G8B8Unorm);
    assert_eq!(texture.bytes_per_pixel, 3);
    assert_eq!(texture.pixels, pixels);
}

#[test]
fn prep_texture_decodes_grayscale() {
    let pixels: Vec<u8> = vec![0, 64, 128, 255, 1, 2];
    let file = encode(
        3,
        2,
        png::ColorType::Grayscale,
        png::BitDepth::Eight,
        None,
        &pixels,
    );
    let texture = prep_texture(&file).unwrap();
    assert_eq!(texture.format, PixelFormat::R8Unorm);
    assert_eq!(texture.bytes_per_pixel, 1);
    assert_eq!(texture.pixels, pixels);
}

#[test]
fn prep_texture_decodes_grayscale_with_alpha() {
    let pixels: Vec<u8> = vec![10, 255, 20, 128];
    let file = encode(
        2,
        1,
        png::ColorType::GrayscaleAlpha,
        png::BitDepth::Eight,
        None,
        &pixels,
    );
    let texture = prep_texture(&file).unwrap();
    assert_eq!(texture.format, PixelFormat::R8G8Unorm);
    assert_eq!(texture.bytes_per_pixel, 2);
    assert_eq!(texture.pixels, pixels);
}

#[test]
fn prep_texture_gets_sixteen_bit_samples_as_their_high_bytes() {
    let samples: Vec<u8> = vec![0x12, 0x34, 0xab, 0xcd];
    let file = encode(
        2,
        1,
        png::ColorType::Grayscale,
        png::BitDepth::Sixteen,
        None,
        &samples,
    );
    let texture = prep_texture(&file).unwrap();
    assert_eq!(texture.format, PixelFormat::R8Unorm);
    assert_eq!(texture.bytes_per_pixel, 1);
    assert!(texture.recognized);
    assert_eq!(texture.pixels, vec![0x12, 0xab]);
}

#[test]
fn prep_texture_gets_a_palette_image_as_colours() {
    let palette = vec![255, 0, 0, 0, 255, 0, 0, 0, 255];
    let file = encode(
        3,
        1,
        png::ColorType::Indexed,
        png::BitDepth::Eight,
        Some(palette),
        &[2, 0, 1],
    );
    let texture = prep_texture(&file).unwrap();
    assert_eq!(texture.width, 3);
    assert_eq!(texture.height, 1);
    assert_eq!(texture.format, PixelFormat::R8G8B8Unorm);
    assert_eq!(texture.pixels, vec![0, 0, 255, 255, 0, 0, 0, 255, 0]);
}

#[test]
fn prep_texture_expands_one_bit_grey_to_bytes() {
    let file = encode(
        8,
        1,
        png::ColorType::Grayscale,
        png::BitDepth::One,
        None,
        &[0b1010_0001],
    );
    let texture = prep_texture(&file).unwrap();
    assert_eq!(texture.format, PixelFormat::R8Unorm);
    assert_eq!(texture.pixels, vec![255, 0, 255, 0, 0, 0, 0, 255]);
}

#[test]
fn prep_texture_pixel_count_matches_the_plan() {
    let pixels: Vec<u8> = vec![7; 5 * 4 * 3];
    let file = encode(5, 4, png::ColorType::RGB, png::BitDepth::Eight, None, &pixels);
    let texture = prep_texture(&file).unwrap();
    assert_eq!(
        texture.pixels.len() as u32,
        texture.width * texture.height * texture.bytes_per_pixel
    );
}

#[test]
fn prep_texture_refuses_what_is_no_png() {
    assert_eq!(prep_texture(&[]).err(), Some(TextureError::BadHeader));
    assert_eq!(
        prep_texture(b"not a png file at all").err(),
        Some(TextureError::BadHeader)
    );
}

#[test]
fn prep_texture_refuses_a_header_without_image_data() {
    let pixels: Vec<u8> = (0..24).collect();
    let file = encode(3, 2, png::ColorType::RGBA, png::BitDepth::Eight, None, &pixels);
    assert_eq!(
        prep_texture(&file[..33]).err(),
        Some(TextureError::BadHeader)
    );
}

#[test]
fn prep_texture_refuses_cut_off_image_data() {
    let pixels: Vec<u8> = (0..=255).cycle().take(64 * 64 * 4).collect();
    let file = encode(64, 64, png::ColorType::RGBA, png::BitDepth::Eight, None, &pixels);
    let cut = &file[..file.len() / 2];
    assert_eq!(prep_texture(cut).err(), Some(TextureError::BadFrame));
}

#[test]
fn texel_sizes() {
    assert_eq!(PixelFormat::R8Unorm.texel_size(), 1);
    assert_eq!(PixelFormat::R8G8Unorm.texel_size(), 2);
    assert_eq!(PixelFormat::R8G8B8Unorm.texel_size(), 3);
    assert_eq!(PixelFormat::R8G8B8A8Unorm.texel_size(), 4);
    assert_eq!(PixelFormat::R8G8B8A8Srgb.texel_size(), 4);
    assert_eq!(PixelFormat::R16Unorm.texel_size(), 2);
    assert_eq!(PixelFormat::R16G16Unorm.texel_size(), 4);
    assert_eq!(PixelFormat::R16G16B16Unorm.texel_size(), 6);
    assert_eq!(PixelFormat::R16G16B16A16Unorm.texel_size(), 8);
}

#[test]
fn bytes_set_aside_are_the_bytes_of_the_format() {
    for color in COLORS {
        for depth in DEPTHS {
            let choice = select_format(color, depth);
            assert_eq!(choice.bytes_per_pixel, choice.format.texel_size());
        }
    }
}
