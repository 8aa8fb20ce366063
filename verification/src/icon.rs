//! Server icons: an image file of any supported kind becomes the Base64
//! text of a PNG picture, ready to be embedded in a page.

use vstd::prelude::*;
use crate::text::text_view;

verus! {

/// The bytes of the PNG picture that shows the image stored in `bytes`, for
/// a file named `path`, or `None` where the bytes hold no image of the kind
/// that the extension of `path` announces. The kind is read from the name
/// alone; the content is never probed for it.
pub uninterp spec fn png_of_image(path: Seq<char>, bytes: Seq<u8>) -> Option<Seq<u8>>;

/// The Base64 text of `bytes`, in the standard alphabet and padded with `=`
/// to a multiple of four characters.
pub uninterp spec fn base64_standard(bytes: Seq<u8>) -> Seq<char>;

/// Whether the Base64 text of `len` bytes has a length that the machine can
/// count: four characters for every three bytes begun.
pub open spec fn encodable_len(len: nat) -> bool {
    len / 3 * 4 + 4 <= usize::MAX
}

/// The text that embeds a PNG picture, given as Base64 text, in a page.
pub open spec fn png_data_uri_text(base64: Seq<char>) -> Seq<char> {
    "data:image/png;base64, "@ + base64
}

/// The Base64 text of a PNG picture, where its length can be counted.
pub open spec fn png_base64_text(png: Seq<u8>) -> Option<Seq<char>> {
    if encodable_len(png.len()) {
        Some(base64_standard(png))
    } else {
        None
    }
}

/// The Base64 text of the PNG picture of an image file, where the file holds
/// an image.
pub open spec fn icon_base64_text(path: Seq<char>, bytes: Seq<u8>) -> Option<Seq<char>> {
    match png_of_image(path, bytes) {
        Some(png) => png_base64_text(png),
        None => None,
    }
}

/// Wraps the image crate: `ImageFormat::from_path` picks the decoder from
/// the extension of `path`, `ImageReader::decode` reads the picture from
/// `bytes` with the default limits, and `DynamicImage::write_to` writes it as
/// PNG. A failure of any of the three gives `None`. The outcome depends on
/// the two arguments alone, which is all that the contract says.
#[verifier::external_body]
pub(crate) fn reencode_as_png(path: &str, bytes: &[u8]) -> (r: Option<Vec<u8>>)
    ensures
        match r {
            Some(png) => png_of_image(path@, bytes@) == Some(png@),
            None => png_of_image(path@, bytes@) is None,
        },
{
    let format = image::ImageFormat::from_path(path).ok()?;
    let reader = image::ImageReader::with_format(std::io::Cursor::new(bytes), format);
    let picture = reader.decode().ok()?;
    let mut out = std::io::Cursor::new(Vec::new());
    picture.write_to(&mut out, image::ImageFormat::Png).ok()?;
    Some(out.into_inner())
}

/// Wraps `Engine::encode` of the base64 crate on its `STANDARD` engine. The
/// crate gives up where the length of the text overflows, so such inputs are
/// left out.
#[verifier::external_body]
pub(crate) fn base64_encode(bytes: &[u8]) -> (r: String)
    requires
        encodable_len(bytes@.len()),
    ensures
        r@ == base64_standard(bytes@),
{
    base64::Engine::encode(&base64::engine::general_purpose::STANDARD, bytes)
}

/// Encodes a PNG picture as Base64 text; `None` where the text would be
/// longer than the machine can count.
pub fn png_to_base64(png: &[u8]) -> (r: Option<String>)
    ensures
        text_view(r) == png_base64_text(png@),
{
    if png.len() / 3 <= (usize::MAX - 4) / 4 {
        Some(base64_encode(png))
    } else {
        None
    }
}

/// Turns the content of an image file into the Base64 text of a PNG picture.
/// `path` is the name of the file, whose extension tells the kind of image;
/// `bytes` is what the file holds. The answer is `None` where the bytes hold
/// no such image.
pub fn image_to_base64(path: &str, bytes: &[u8]) -> (r: Option<String>)
    ensures
        text_view(r) == icon_base64_text(path@, bytes@),
{
    match reencode_as_png(path, bytes) {
        Some(png) => png_to_base64(png.as_slice()),
        None => None,
    }
}

/// Builds the address under which a page shows a PNG picture that is given
/// as Base64 text.
pub fn png_data_uri(base64: &str) -> (r: String)
    ensures
        r@ == png_data_uri_text(base64@),
{
    let mut uri = "data:image/png;base64, ".to_owned();
    uri.append(base64);
    uri
}

} // verus!
