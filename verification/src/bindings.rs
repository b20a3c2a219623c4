//! The calls this library makes into other crates. Verus does not read the
//! bodies below: it takes each contract on trust.

use vstd::prelude::*;

verus! {

/// The RFC 3339 text that `chrono` prints for the UTC instant `secs` seconds
/// and `nanos` nanoseconds after the Unix epoch; `None` where `chrono` has no
/// such instant.
pub uninterp spec fn rfc3339_of(secs: int, nanos: int) -> Option<Seq<char>>;

/// `chrono::DateTime::<Utc>::from_timestamp`, then `DateTime::to_rfc3339` on
/// what it gives. The contract claims that the outcome is a function of the
/// two numbers alone: the first call refuses an instant out of chrono's range
/// or with invalid nanoseconds, and the second prints any instant it is
/// given, in UTC and without looking at the clock or the locale.
#[verifier::external_body]
pub(crate) fn format_rfc3339(secs: i64, nanos: u32) -> (r: Option<String>)
    ensures
        match r {
            Some(s) => rfc3339_of(secs as int, nanos as int) == Some(s@),
            None => rfc3339_of(secs as int, nanos as int) is None,
        },
{
    chrono::DateTime::from_timestamp(secs, nanos).map(|instant| instant.to_rfc3339())
}

/// The base64 text of `bytes` in the standard alphabet, with padding.
pub uninterp spec fn base64_of(bytes: Seq<u8>) -> Seq<char>;

/// `base64::encode`. The contract claims that the text depends on the bytes
/// alone. The call panics when the length of the text overflows `usize`,
/// which the precondition rules out.
#[allow(deprecated)]
#[verifier::external_body]
pub(crate) fn base64_encode(bytes: &[u8]) -> (r: String)
    requires
        bytes@.len() / 3 * 4 + 4 <= usize::MAX,
    ensures
        r@ == base64_of(bytes@),
{
    base64::encode(bytes)
}

/// `uuid::Uuid::new_v4`, printed in the hyphenated form. The value is random,
/// so the contract claims only the length of that form. The call panics if
/// the operating system hands out no random bytes.
#[verifier::external_body]
pub(crate) fn random_uuid() -> (r: String)
    ensures
        r@.len() == 36,
{
    uuid::Uuid::new_v4().to_string()
}

/// The texts of a list of pairs of strings.
pub open spec fn pairs_text(pairs: Seq<(String, String)>) -> Seq<(Seq<char>, Seq<char>)> {
    pairs.map_values(|pair: (String, String)| (pair.0@, pair.1@))
}

/// The key-value pairs in the query of the absolute URL `url`, in their
/// order and decoded as a form; `None` where `url` is no absolute URL.
pub uninterp spec fn url_query_pairs(url: Seq<char>) -> Option<Seq<(Seq<char>, Seq<char>)>>;

/// `url::Url::parse`, then `Url::query_pairs` on what it gives. The contract
/// claims that the pairs, and whether the text is a URL at all, depend on
/// the text alone.
#[verifier::external_body]
pub(crate) fn query_pairs(url: &str) -> (r: Option<Vec<(String, String)>>)
    ensures
        match r {
            Some(pairs) => url_query_pairs(url@) == Some(pairs_text(pairs@)),
            None => url_query_pairs(url@) is None,
        },
{
    match url::Url::parse(url) {
        Ok(parsed) => Some(
            parsed.query_pairs().map(|(key, value)| (key.into_owned(), value.into_owned())).collect(),
        ),
        Err(_) => None,
    }
}

/// `text` with its percent escapes resolved; `None` where the resolved bytes
/// are no UTF-8.
pub uninterp spec fn percent_decoded(text: Seq<char>) -> Option<Seq<char>>;

/// `urlencoding::decode`. The contract claims that the outcome depends on
/// the text alone.
#[verifier::external_body]
pub(crate) fn percent_decode(text: &str) -> (r: Option<String>)
    ensures
        match r {
            Some(decoded) => percent_decoded(text@) == Some(decoded@),
            None => percent_decoded(text@) is None,
        },
{
    match urlencoding::decode(text) {
        Ok(decoded) => Some(decoded.into_owned()),
        Err(_) => None,
    }
}

/// What the JSON document `document` holds under the member `first`, in
/// there under `second`, and in there under `third`: `None` where
/// `document` is no JSON, `Some(None)` where it is but holds no string at
/// that place, else the string.
pub uninterp spec fn json_string_at(
    document: Seq<char>,
    first: Seq<char>,
    second: Seq<char>,
    third: Seq<char>,
) -> Option<Option<Seq<char>>>;

/// `serde_json::from_str` into a `serde_json::Value`, indexed three times by
/// a member name and read with `Value::as_str`. Indexing a value that is no
/// object, or that lacks the member, gives null and does not panic. The
/// contract claims that the outcome depends on the four texts alone.
#[verifier::external_body]
pub(crate) fn json_string_member(document: &str, first: &str, second: &str, third: &str) -> (r:
    Option<Option<String>>)
    ensures
        match r {
            Some(Some(text)) => json_string_at(document@, first@, second@, third@) == Some(
                Some(text@),
            ),
            Some(None) => json_string_at(document@, first@, second@, third@) == Some(
                None::<Seq<char>>,
            ),
            None => json_string_at(document@, first@, second@, third@) is None,
        },
{
    match serde_json::from_str::<serde_json::Value>(document) {
        Ok(value) => Some(value[first][second][third].as_str().map(|text| text.to_string())),
        Err(_) => None,
    }
}

/// How much damage a QR code is to survive.
#[derive(Debug, Clone, Copy, PartialEq, Eq, Structural)]
pub enum ErrorCorrection {
    Low,
    Medium,
    Quartile,
    High,
}

/// `qrcodegen::QrCode`: a finished QR code. Nothing of its inside is known
/// here but what the functions below state.
#[verifier::external_type_specification]
#[verifier::external_body]
pub struct ExQrCode(qrcodegen::QrCode);

/// The modules of a QR code, row by row from the top, each row from the
/// left; `true` is dark.
pub uninterp spec fn qr_modules(qr: qrcodegen::QrCode) -> Seq<Seq<bool>>;

/// The modules of the QR code that `qrcodegen` makes of `text` at the given
/// level; `None` where the text fits no QR code.
pub uninterp spec fn qr_modules_of(text: Seq<char>, level: ErrorCorrection) -> Option<
    Seq<Seq<bool>>,
>;

/// `qrcodegen::QrCode::encode_text`. The contract claims that the code
/// depends on the text and the level alone.
#[verifier::external_body]
pub(crate) fn qr_encode_text(text: &str, level: ErrorCorrection) -> (r: Option<qrcodegen::QrCode>)
    ensures
        match r {
            Some(qr) => qr_modules_of(text@, level) == Some(qr_modules(qr)),
            None => qr_modules_of(text@, level) is None,
        },
{
    let ecl = match level {
        ErrorCorrection::Low => qrcodegen::QrCodeEcc::Low,
        ErrorCorrection::Medium => qrcodegen::QrCodeEcc::Medium,
        ErrorCorrection::Quartile => qrcodegen::QrCodeEcc::Quartile,
        ErrorCorrection::High => qrcodegen::QrCodeEcc::High,
    };
    qrcodegen::QrCode::encode_text(text, ecl).ok()
}

/// `qrcodegen::QrCode::size`: the number of rows, between 21 and 177. The
/// contract also claims what the crate says of every code: it is square.
#[verifier::external_body]
pub(crate) fn qr_size(qr: &qrcodegen::QrCode) -> (size: i32)
    ensures
        21 <= size <= 177,
        size == qr_modules(*qr).len(),
        forall|y: int| 0 <= y < size ==> (#[trigger] qr_modules(*qr)[y]).len() == size,
{
    qr.size()
}

/// `qrcodegen::QrCode::get_module`: the module in column `x` of row `y`,
/// and light for coordinates outside the code.
#[verifier::external_body]
pub(crate) fn qr_get_module(qr: &qrcodegen::QrCode, x: i32, y: i32) -> (dark: bool)
    ensures
        dark == (0 <= x < qr_modules(*qr).len() && 0 <= y < qr_modules(*qr).len() && qr_modules(
            *qr,
        )[y as int][x as int]),
{
    qr.get_module(x, y)
}

/// A picture of the `image` crate: an `image::ImageBuffer` of RGB pixels.
/// Nothing of its inside is known here but what the functions below state.
#[verifier::external_body]
pub struct Picture {
    buffer: image::ImageBuffer<image::Rgb<u8>, Vec<u8>>,
}

/// The bytes of a picture: its rows from the top, each pixel three bytes of
/// red, green and blue.
pub uninterp spec fn picture_bytes(picture: Picture) -> Seq<u8>;

/// The width and the height that a picture was made with, in pixels.
pub uninterp spec fn picture_size(picture: Picture) -> (int, int);

/// The PNG file that `image` writes for a picture of the given width,
/// height and bytes; `None` where it writes none.
pub uninterp spec fn png_of(width: int, height: int, bytes: Seq<u8>) -> Option<Seq<u8>>;

/// `image::ImageBuffer::new`: a picture of the given size with every byte
/// zero. The call panics where the bytes outgrow a vector, which the
/// precondition rules out.
#[verifier::external_body]
pub(crate) fn picture_new(width: u32, height: u32) -> (picture: Picture)
    requires
        width * height * 3 <= 0x7fff_ffff,
    ensures
        picture_size(picture) == (width as int, height as int),
        picture_bytes(picture) == Seq::new((width * height * 3) as nat, |i: int| 0u8),
{
    Picture { buffer: image::ImageBuffer::new(width, height) }
}

/// `image::ImageBuffer::put_pixel`: the three bytes of the pixel in column
/// `x` of row `y` become `red`, `green` and `blue`, and nothing else
/// changes. The call panics outside the picture, which the precondition
/// rules out.
#[verifier::external_body]
pub(crate) fn picture_put_pixel(
    picture: &mut Picture,
    x: u32,
    y: u32,
    red: u8,
    green: u8,
    blue: u8,
)
    requires
        x < picture_size(*old(picture)).0,
        y < picture_size(*old(picture)).1,
    ensures
        picture_size(*final(picture)) == picture_size(*old(picture)),
        picture_bytes(*final(picture)) == picture_bytes(*old(picture)).update(
            (y * picture_size(*old(picture)).0 + x) * 3,
            red,
        ).update((y * picture_size(*old(picture)).0 + x) * 3 + 1, green).update(
            (y * picture_size(*old(picture)).0 + x) * 3 + 2,
            blue,
        ),
{
    picture.buffer.put_pixel(x, y, image::Rgb([red, green, blue]))
}

/// `image::ImageBuffer::write_to` with the PNG format, into a buffer in
/// memory. The contract claims that the file depends on the size and the
/// bytes of the picture alone.
#[verifier::external_body]
pub(crate) fn picture_png(picture: &Picture) -> (r: Option<Vec<u8>>)
    ensures
        match r {
            Some(file) => png_of(
                picture_size(*picture).0,
                picture_size(*picture).1,
                picture_bytes(*picture),
            ) == Some(file@),
            None => png_of(
                picture_size(*picture).0,
                picture_size(*picture).1,
                picture_bytes(*picture),
            ) is None,
        },
{
    let mut file = std::io::Cursor::new(Vec::new());
    match picture.buffer.write_to(&mut file, image::ImageOutputFormat::Png) {
        Ok(_) => Some(file.into_inner()),
        Err(_) => None,
    }
}

} // verus!
