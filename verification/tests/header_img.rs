use image::{ColorType, DynamicImage, GrayImage, ImageFormat, Rgb, RgbImage, RgbaImage};
use rmskin_builder::{validate_header_image, HeaderImage};

fn bmp_of(image: &DynamicImage) -> Vec<u8> {
    let mut file = std::io::Cursor::new(Vec::new());
    image.write_to(&mut file, ImageFormat::Bmp).unwrap();
    file.into_inner()
}

#[test]
fn valid_bmp() {
    let mut picture = RgbImage::new(400, 60);
    picture.put_pixel(3, 5, Rgb([10, 20, 30]));
    let asset = bmp_of(&DynamicImage::ImageRgb8(picture.clone()));
    let validated = validate_header_image(&asset).unwrap();
    let bmp_img = image::load_from_memory_with_format(&validated, ImageFormat::Bmp).unwrap();
    assert_eq!(bmp_img.into_rgb8(), picture);
}

#[test]
fn invalid_bmp() {
    let img = GrayImage::new(350, 50);
    let asset = bmp_of(&DynamicImage::ImageLuma8(img));
    let validated = validate_header_image(&asset).unwrap();
    let bmp_img = image::load_from_memory_with_format(&validated, ImageFormat::Bmp).unwrap();
    assert_eq!(bmp_img.height(), 60);
    assert_eq!(bmp_img.width(), 400);
    assert_eq!(bmp_img.color(), ColorType::Rgb8);
}

#[test]
fn what_is_no_bmp_is_an_error() {
    assert!(validate_header_image(b"").is_err());
    assert!(validate_header_image(b"not an image").is_err());
    let png_magic = [0x89, b'P', b'N', b'G', 0x0d, 0x0a, 0x1a, 0x0a];
    assert!(validate_header_image(&png_magic).is_err());
}

#[test]
fn any_size_and_format_becomes_400_by_60_rgb() {
    let sources = vec![
        DynamicImage::ImageRgba8(RgbaImage::new(1, 1)),
        DynamicImage::ImageLuma8(GrayImage::new(800, 120)),
        DynamicImage::ImageRgb8(RgbImage::new(400, 61)),
        DynamicImage::ImageRgb8(RgbImage::new(399, 60)),
        DynamicImage::ImageRgb8(RgbImage::new(60, 400)),
    ];
    for source in sources {
        let header = HeaderImage::normalize(source);
        assert_eq!(header.width(), 400);
        assert_eq!(header.height(), 60);
        assert_eq!(header.pixels().len(), 400 * 60 * 3);
        let file = header.encode().unwrap();
        let decoded = image::load_from_memory_with_format(&file, ImageFormat::Bmp).unwrap();
        assert_eq!((decoded.width(), decoded.height()), (400, 60));
        assert_eq!(decoded.color(), ColorType::Rgb8);
        assert_eq!(decoded.into_rgb8().into_raw(), header.pixels());
    }
}

#[test]
fn resizing_takes_the_nearest_pixel() {
    let mut picture = RgbImage::new(2, 1);
    picture.put_pixel(0, 0, Rgb([255, 0, 0]));
    picture.put_pixel(1, 0, Rgb([0, 0, 255]));
    let header = HeaderImage::normalize(DynamicImage::ImageRgb8(picture));
    let pixels = header.pixels();
    for row in 0..60 {
        for column in 0..400 {
            let at = (row * 400 + column) * 3;
            let expected = if column < 200 { [255, 0, 0] } else { [0, 0, 255] };
            assert_eq!(&pixels[at..at + 3], &expected);
        }
    }
}

#[test]
fn right_size_keeps_its_pixels() {
    let mut picture = RgbImage::new(400, 60);
    for (x, y, pixel) in picture.enumerate_pixels_mut() {
        *pixel = Rgb([(x % 256) as u8, y as u8, ((x + y) % 256) as u8]);
    }
    let header = HeaderImage::normalize(DynamicImage::ImageRgb8(picture.clone()));
    assert_eq!(header.pixels(), picture.as_raw().as_slice());
}

#[test]
fn buffer_with_more_than_the_pixels_is_cut() {
    let mut raw = vec![9u8; 400 * 60 * 3];
    raw.extend_from_slice(&[1, 2, 3, 4, 5]);
    let picture = RgbImage::from_raw(400, 60, raw).unwrap();
    let header = HeaderImage::normalize(DynamicImage::ImageRgb8(picture));
    assert_eq!(header.pixels(), vec![9u8; 400 * 60 * 3].as_slice());
    let file = header.encode().unwrap();
    let decoded = image::load_from_memory_with_format(&file, ImageFormat::Bmp).unwrap();
    assert_eq!(decoded.into_rgb8().into_raw(), vec![9u8; 400 * 60 * 3]);
}
