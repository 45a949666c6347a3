//! The binding `load-texture`: from the bytes of an image file to an RGBA8
//! texture. The `image` crate decodes; what it hands back is checked here.

use vstd::prelude::*;
use crate::command::{rgba_len, TextureImage, TextureModel};

verus! {

/// Why a file gave no texture.
#[derive(Debug, PartialEq, Eq)]
pub enum LoadError {
    /// The file is no image that can be decoded; the decoder's words.
    Image(String),
    /// The decoder handed back other than four bytes for each pixel.
    Size,
}

/// What the `image` crate decodes from the contents of a file of the
/// given name: width, height and RGBA8 bytes, or its error in its own
/// words. The same name and contents give the same result: the format is
/// looked up in a fixed table by the extension that the platform's path
/// syntax finds in the name, the reader has the crate's default limits, and
/// what the decoders compute does not depend on the processor.
pub uninterp spec fn decoded_rgba8(filename: Seq<char>, contents: Seq<u8>) -> Result<
    (u32, u32, Seq<u8>),
    Seq<char>,
>;

/// The `image` crate's decoding of a file held in memory:
/// `ImageFormat::from_path` on the name, `ImageReader::with_format` and
/// `decode` on the contents, `to_rgba8` on the image, and `to_string` on
/// an error of either. The result is `decoded_rgba8` of the name and the
/// contents; nothing else is claimed of it, not even its size.
#[verifier::external_body]
fn decode_rgba8(filename: &str, contents: &Vec<u8>) -> (decoded: Result<(u32, u32, Vec<u8>), String>)
    ensures
        match decoded {
            Ok((width, height, pixels)) => decoded_rgba8(filename@, contents@) == Ok::<
                (u32, u32, Seq<u8>),
                Seq<char>,
            >((width, height, pixels@)),
            Err(words) => decoded_rgba8(filename@, contents@) == Err::<
                (u32, u32, Seq<u8>),
                Seq<char>,
            >(words@),
        },
{
    let format = match image::ImageFormat::from_path(filename) {
        Ok(format) => format,
        Err(error) => return Err(error.to_string()),
    };
    let reader = image::ImageReader::with_format(std::io::Cursor::new(contents.as_slice()), format);
    match reader.decode() {
        Ok(image) => {
            let rgba = image.to_rgba8();
            Ok((rgba.width(), rgba.height(), rgba.into_raw()))
        },
        Err(error) => Err(error.to_string()),
    }
}

/// The texture that a decoded image makes: the image itself where it has
/// four bytes for each pixel. A failure of the decoder is passed on in its
/// words.
pub fn texture_from_decoded(decoded: Result<(u32, u32, Vec<u8>), String>) -> (texture: Result<
    TextureImage,
    LoadError,
>)
    ensures
        match decoded {
            Ok((width, height, pixels)) => if pixels@.len() == rgba_len(width, height) {
                texture is Ok && texture->Ok_0@ == (TextureModel { width, height, pixels: pixels@ })
            } else {
                texture == Err::<TextureImage, LoadError>(LoadError::Size)
            },
            Err(words) => texture == Err::<TextureImage, LoadError>(LoadError::Image(words)),
        },
{
    match decoded {
        Ok((width, height, pixels)) => match TextureImage::new(width, height, pixels) {
            Some(image) => Ok(image),
            None => Err(LoadError::Size),
        },
        Err(words) => Err(LoadError::Image(words)),
    }
}

/// The binding `load-texture`, given the contents of the file: the
/// decoded image as an RGBA8 texture, or the decoder's failure in its own
/// words. What decodes, and to what, is `decoded_rgba8`.
pub fn load_texture(filename: &str, contents: &Vec<u8>) -> (texture: Result<TextureImage, LoadError>)
    ensures
        match decoded_rgba8(filename@, contents@) {
            Ok((width, height, pixels)) => if pixels.len() == rgba_len(width, height) {
                texture is Ok && texture->Ok_0@ == (TextureModel { width, height, pixels })
            } else {
                texture == Err::<TextureImage, LoadError>(LoadError::Size)
            },
            Err(words) => texture is Err && texture->Err_0 is Image
                && texture->Err_0->Image_0@ == words,
        },
{
    texture_from_decoded(decode_rgba8(filename, contents))
}

impl LoadError {
    /// The failure as the script sees it.
    pub fn message(self) -> (text: String)
        ensures
            match self {
                LoadError::Image(words) => text == words,
                LoadError::Size => text@ == "Invalid dimensions"@,
            },
    {
        match self {
            LoadError::Image(words) => words,
            LoadError::Size => "Invalid dimensions".to_owned(),
        }
    }
}

} // verus!
