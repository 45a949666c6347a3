//! The messages that cross between the render loop and the scripting loop.

use vstd::prelude::*;

verus! {

/// An RGBA8 image: `height` rows of `width` pixels, four bytes per pixel.
#[derive(Debug, PartialEq, Eq)]
pub struct TextureImage {
    width: u32,
    height: u32,
    pixels: Vec<u8>,
}

/// What a `TextureImage` is to the contracts.
pub ghost struct TextureModel {
    pub width: u32,
    pub height: u32,
    pub pixels: Seq<u8>,
}

impl View for TextureImage {
    type V = TextureModel;

    closed spec fn view(&self) -> TextureModel {
        TextureModel { width: self.width, height: self.height, pixels: self.pixels@ }
    }
}

/// The number of bytes that an RGBA8 image of the given size holds.
pub open spec fn rgba_len(width: u32, height: u32) -> int {
    width as int * height as int * 4
}

/// The pixel in column `x` of row `y`: red, green, blue and alpha.
pub open spec fn pixel_at(image: TextureModel, x: int, y: int) -> (u8, u8, u8, u8) {
    let at = 4 * (y * image.width + x);
    (image.pixels[at], image.pixels[at + 1], image.pixels[at + 2], image.pixels[at + 3])
}

/// A pixel of the image lies within its bytes.
pub proof fn lemma_pixel_in_bounds(width: int, height: int, x: int, y: int)
    requires
        0 <= x < width,
        0 <= y < height,
    ensures
        0 <= 4 * (y * width + x),
        4 * (y * width + x) + 4 <= width * height * 4,
        4 * ((y + 1) * width) == 4 * (y * width + width),
{
    assert(0 <= y * width && y * width + width <= height * width && (y + 1) * width == y * width
        + width && width * height == height * width) by (nonlinear_arith)
        requires
            0 <= x < width,
            0 <= y < height,
    ;
}

impl Clone for TextureImage {
    fn clone(&self) -> (copy: Self)
        ensures
            copy@ == self@,
    {
        proof {
            use_type_invariant(self);
        }
        TextureImage { width: self.width, height: self.height, pixels: self.pixels.clone() }
    }
}

impl TextureImage {
    #[verifier::type_invariant]
    spec fn inv(self) -> bool {
        self.pixels@.len() == rgba_len(self.width, self.height)
    }

    /// Builds an image from its bytes. The bytes are accepted exactly when
    /// there are four of them for each pixel.
    pub fn new(width: u32, height: u32, pixels: Vec<u8>) -> (image: Option<TextureImage>)
        ensures
            image is Some <==> pixels@.len() == rgba_len(width, height),
            image is Some ==> image->0@ == (TextureModel { width, height, pixels: pixels@ }),
    {
        assert(width as int * height as int <= 0xFFFF_FFFF * 0xFFFF_FFFF) by (nonlinear_arith)
            requires
                0 <= width as int <= 0xFFFF_FFFF,
                0 <= height as int <= 0xFFFF_FFFF,
        ;
        let area: u64 = (width as u64) * (height as u64);
        let wanted: u128 = (area as u128) * 4u128;
        if pixels.len() as u128 == wanted {
            Some(TextureImage { width, height, pixels })
        } else {
            None
        }
    }

    pub fn width(&self) -> (width: u32)
        ensures
            width == self@.width,
    {
        self.width
    }

    pub fn height(&self) -> (height: u32)
        ensures
            height == self@.height,
    {
        self.height
    }

    /// The pixels row by row, as the renderer uploads them.
    pub fn rows(&self) -> (rows: Vec<Vec<(u8, u8, u8, u8)>>)
        ensures
            rows@.len() == self@.height,
            forall|y: int| 0 <= y < self@.height ==> (#[trigger] rows@[y])@.len() == self@.width,
            forall|y: int, x: int|
                0 <= y < self@.height && 0 <= x < self@.width ==> (#[trigger] rows@[y]@[x])
                    == pixel_at(self@, x, y),
    {
        proof {
            use_type_invariant(self);
        }
        let ghost image = self@;
        let mut rows: Vec<Vec<(u8, u8, u8, u8)>> = Vec::new();
        let mut at: usize = 0;
        let mut y: u32 = 0;
        while y < self.height
            invariant
                image == self@,
                self.pixels@.len() == rgba_len(self.width, self.height),
                y <= self.height,
                at == 4 * (y * self.width),
                at <= self.pixels@.len(),
                rows@.len() == y,
                forall|r: int| 0 <= r < y ==> (#[trigger] rows@[r])@.len() == self.width,
                forall|r: int, c: int|
                    0 <= r < y && 0 <= c < self.width ==> (#[trigger] rows@[r]@[c]) == pixel_at(
                        image,
                        c,
                        r,
                    ),
            decreases self.height - y,
        {
            let mut row: Vec<(u8, u8, u8, u8)> = Vec::new();
            let mut x: u32 = 0;
            while x < self.width
                invariant
                    image == self@,
                    self.pixels@.len() == rgba_len(self.width, self.height),
                    y < self.height,
                    x <= self.width,
                    at == 4 * (y * self.width + x),
                    at <= self.pixels@.len(),
                    row@.len() == x,
                    forall|c: int| 0 <= c < x ==> (#[trigger] row@[c]) == pixel_at(image, c, y as int),
                decreases self.width - x,
            {
                proof {
                    lemma_pixel_in_bounds(
                        self.width as int,
                        self.height as int,
                        x as int,
                        y as int,
                    );
                    assert(at + 4 <= self.pixels.len());
                }
                row.push(
                    (
                        self.pixels[at],
                        self.pixels[at + 1],
                        self.pixels[at + 2],
                        self.pixels[at + 3],
                    ),
                );
                at += 4;
                x += 1;
            }
            proof {
                if self.width > 0 {
                    lemma_pixel_in_bounds(self.width as int, self.height as int, 0, y as int);
                } else {
                    assert(4 * (y * self.width + self.width) == 4 * ((y + 1) * self.width))
                        by (nonlinear_arith)
                        requires
                            self.width == 0,
                    ;
                }
            }
            rows.push(row);
            y += 1;
        }
        rows
    }

    /// The bytes of the image: always four for each pixel.
    pub fn pixels(&self) -> (pixels: &Vec<u8>)
        ensures
            pixels@ == self@.pixels,
            pixels@.len() == rgba_len(self@.width, self@.height),
    {
        proof {
            use_type_invariant(self);
        }
        &self.pixels
    }
}

/// A value that a shader uniform can take. Each number is the bit pattern
/// of a single-precision float.
#[derive(Debug, Clone, PartialEq, Eq)]
pub enum UniformValue {
    Float(u32),
    Vector3(u32, u32, u32),
    /// A 4x4 matrix, row by row.
    Matrix([u32; 16]),
    RgbaTexture2D(TextureImage),
}

/// What a `UniformValue` is to the contracts.
pub ghost enum UniformModel {
    Float(u32),
    Vector3(u32, u32, u32),
    Matrix(Seq<u32>),
    RgbaTexture2D(TextureModel),
}

impl View for UniformValue {
    type V = UniformModel;

    open spec fn view(&self) -> UniformModel {
        match self {
            UniformValue::Float(bits) => UniformModel::Float(*bits),
            UniformValue::Vector3(x, y, z) => UniformModel::Vector3(*x, *y, *z),
            UniformValue::Matrix(cells) => UniformModel::Matrix(cells@),
            UniformValue::RgbaTexture2D(image) => UniformModel::RgbaTexture2D(image@),
        }
    }
}

impl UniformValue {
    /// Whether the value is a texture, which the renderer uploads once
    /// instead of storing it with the plain uniforms.
    pub fn is_texture(&self) -> (texture: bool)
        ensures
            texture == (self@ is RgbaTexture2D),
    {
        match self {
            UniformValue::RgbaTexture2D(_) => true,
            _ => false,
        }
    }
}

/// Commands meant to be received by the renderer.
#[derive(Debug, Clone, PartialEq, Eq)]
pub enum RenderCommand {
    SetUniform(String, UniformValue),
}

/// What a `RenderCommand` is to the contracts.
pub ghost enum RenderCommandModel {
    SetUniform(Seq<char>, UniformModel),
}

impl View for RenderCommand {
    type V = RenderCommandModel;

    open spec fn view(&self) -> RenderCommandModel {
        match self {
            RenderCommand::SetUniform(name, value) => RenderCommandModel::SetUniform(
                name@,
                value@,
            ),
        }
    }
}

/// Commands the render engine sends to consumers such as the scripting loop.
#[derive(Debug, Clone, Copy, PartialEq, Eq)]
pub enum StateUpdateCommand {
    ScreenSizeChanged(u32, u32),
}

} // verus!
