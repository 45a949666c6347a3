use shade_eval_print_loop::command::TextureImage;
use shade_eval_print_loop::texture::{load_texture, texture_from_decoded, LoadError};
use std::io::Cursor;

fn encoded(image: image::DynamicImage, format: image::ImageFormat) -> Vec<u8> {
    let mut contents = Vec::new();
    image.write_to(&mut Cursor::new(&mut contents), format).unwrap();
    contents
}

fn two_by_two() -> Vec<u8> {
    vec![255, 0, 0, 255, 0, 255, 0, 128, 0, 0, 255, 0, 10, 20, 30, 40]
}

#[test]
fn load_texture_decodes_a_png_to_rgba8() {
    let pixels = two_by_two();
    let image = image::RgbaImage::from_raw(2, 2, pixels.clone()).unwrap();
    let contents = encoded(image::DynamicImage::ImageRgba8(image), image::ImageFormat::Png);
    assert_ne!(pixels, contents);

    let texture = load_texture("textures/checker.png", &contents).unwrap();
    assert_eq!(2, texture.width());
    assert_eq!(2, texture.height());
    assert_eq!(&pixels, texture.pixels());
    assert_eq!(TextureImage::new(2, 2, pixels).unwrap(), texture);
}

#[test]
fn load_texture_widens_other_pixel_formats_to_rgba8() {
    let gray = image::GrayImage::from_raw(2, 1, vec![7, 200]).unwrap();
    let contents = encoded(image::DynamicImage::ImageLuma8(gray), image::ImageFormat::Bmp);
    let texture = load_texture("gray.bmp", &contents).unwrap();
    assert_eq!((2, 1), (texture.width(), texture.height()));
    assert_eq!(&vec![7, 7, 7, 255, 200, 200, 200, 255], texture.pixels());
}

#[test]
fn load_texture_goes_by_the_extension_of_the_name() {
    let image = image::RgbaImage::from_raw(2, 2, two_by_two()).unwrap();
    let contents = encoded(image::DynamicImage::ImageRgba8(image), image::ImageFormat::Png);
    assert!(load_texture("checker.png", &contents).is_ok());
    assert!(matches!(
        load_texture("checker.bmp", &contents),
        Err(LoadError::Image(_))
    ));
    assert!(matches!(
        load_texture("checker.unknown", &contents),
        Err(LoadError::Image(_))
    ));
    assert!(matches!(load_texture("checker", &contents), Err(LoadError::Image(_))));
}

#[test]
fn load_texture_reports_what_does_not_decode() {
    let failure = load_texture("broken.png", &vec![1, 2, 3, 4]).unwrap_err();
    match failure {
        LoadError::Image(words) => assert!(!words.is_empty()),
        LoadError::Size => panic!("the decoder handed nothing back"),
    }
    assert!(load_texture("empty.png", &Vec::new()).is_err());
}

#[test]
fn texture_from_decoded_checks_the_size() {
    assert_eq!(
        Ok(TextureImage::new(1, 2, vec![1, 2, 3, 4, 5, 6, 7, 8]).unwrap()),
        texture_from_decoded(Ok((1, 2, vec![1, 2, 3, 4, 5, 6, 7, 8])))
    );
    assert_eq!(
        Err(LoadError::Size),
        texture_from_decoded(Ok((1, 2, vec![1, 2, 3, 4])))
    );
    assert_eq!(
        Err(LoadError::Size),
        texture_from_decoded(Ok((2, 2, vec![0; 17])))
    );
    assert_eq!(
        Err(LoadError::Image("no such format".to_string())),
        texture_from_decoded(Err("no such format".to_string()))
    );
    assert_eq!("no such format", LoadError::Image("no such format".to_string()).message());
    assert_eq!("Invalid dimensions", LoadError::Size.message());
}

#[test]
fn texture_rows_hold_the_pixels_row_by_row() {
    let pixels: Vec<u8> = (0..24).collect();
    let texture = TextureImage::new(3, 2, pixels).unwrap();
    assert_eq!(
        vec![
            vec![(0, 1, 2, 3), (4, 5, 6, 7), (8, 9, 10, 11)],
            vec![(12, 13, 14, 15), (16, 17, 18, 19), (20, 21, 22, 23)],
        ],
        texture.rows()
    );
    assert!(TextureImage::new(0, 0, vec![]).unwrap().rows().is_empty());
    assert_eq!(
        vec![Vec::<(u8, u8, u8, u8)>::new(); 2],
        TextureImage::new(0, 2, vec![]).unwrap().rows()
    );
    let image = image::RgbaImage::from_raw(3, 2, (0..24).collect()).unwrap();
    let rows: Vec<Vec<(u8, u8, u8, u8)>> = image
        .rows()
        .map(|row| row.map(|pixel| (pixel.0[0], pixel.0[1], pixel.0[2], pixel.0[3])).collect())
        .collect();
    assert_eq!(rows, texture.rows());
}

#[test]
fn load_texture_gives_the_same_for_the_same_file() {
    let image = image::RgbImage::from_fn(16, 16, |x, y| image::Rgb([(x * 16) as u8, (y * 16) as u8, 128]));
    let contents = encoded(image::DynamicImage::ImageRgb8(image), image::ImageFormat::Jpeg);
    let first = load_texture("gradient.jpg", &contents).unwrap();
    let second = load_texture("gradient.jpg", &contents).unwrap();
    assert_eq!(first, second);
    assert_eq!((16, 16), (first.width(), first.height()));
    assert_eq!(16 * 16 * 4, first.pixels().len());
    assert!(first.pixels().chunks(4).all(|pixel| pixel[3] == 255));
    assert_eq!(
        load_texture("broken.jpg", &contents[..contents.len() / 4].to_vec()).is_err(),
        load_texture("broken.jpg", &contents[..contents.len() / 4].to_vec()).is_err()
    );
}
