//! Texture files: PNG images decoded to 8-bit RGBA texels.

use vstd::prelude::*;

verus! {

#[verifier::external_type_specification]
#[verifier::external_body]
pub struct ExImageError(image::ImageError);

/// The width, height and RGBA bytes that decoding `bytes` as a PNG image and
/// converting it to 8-bit RGBA gives, or `None` when decoding fails.
pub uninterp spec fn png_rgba8(bytes: Seq<u8>) -> Option<(u32, u32, Seq<u8>)>;

/// Decodes `bytes` as a PNG image and converts it to 8-bit RGBA
/// (`ImageReader::decode` with the PNG format set, then `to_rgba8`). The
/// result, success or failure included, is a function of the bytes, named
/// `png_rgba8`; nothing more about the decoder is claimed.
#[verifier::external_body]
fn decode_png_rgba8(bytes: &[u8]) -> (r: Result<(u32, u32, Vec<u8>), image::ImageError>)
    ensures
        r is Ok <==> png_rgba8(bytes@) is Some,
        r matches Ok((w, h, data)) ==> png_rgba8(bytes@) == Some((w, h, data@)),
{
    let mut reader = image::ImageReader::new(std::io::Cursor::new(bytes));
    reader.set_format(image::ImageFormat::Png);
    match reader.decode() {
        Ok(img) => Ok((img.width(), img.height(), img.to_rgba8().into_raw())),
        Err(e) => Err(e),
    }
}

/// A decoded texture: its size in pixels and its RGBA bytes, row by row.
pub struct Texel {
    pub width: u32,
    pub height: u32,
    pub data: Vec<u8>,
}

/// Why a texture could not be made from a file's bytes.
pub enum TexelLoaderError {
    /// The bytes are not a PNG image the decoder accepts.
    Decode(image::ImageError),
}

/// Makes a texture from the outcome of decoding: the decoded size and bytes
/// become the texture, a decoding error becomes a loader error.
pub fn texel_from_decoded(decoded: Result<(u32, u32, Vec<u8>), image::ImageError>) -> (r: Result<
    Texel,
    TexelLoaderError,
>)
    ensures
        r is Ok <==> decoded is Ok,
        decoded matches Ok((w, h, data)) ==> (r matches Ok(t) && t.width == w && t.height == h
            && t.data@ == data@),
        decoded matches Err(e) ==> r == Err::<Texel, TexelLoaderError>(TexelLoaderError::Decode(e)),
{
    match decoded {
        Ok((width, height, data)) => Ok(Texel { width, height, data }),
        Err(e) => Err(TexelLoaderError::Decode(e)),
    }
}

/// Makes a texture from the bytes of a texture file. A decoding failure
/// comes back as `Decode` with the decoder's own error.
pub fn load_texel(bytes: &[u8]) -> (r: Result<Texel, TexelLoaderError>)
    ensures
        r is Ok <==> png_rgba8(bytes@) is Some,
        r matches Ok(t) ==> png_rgba8(bytes@) == Some((t.width, t.height, t.data@)),
{
    texel_from_decoded(decode_png_rgba8(bytes))
}

} // verus!
