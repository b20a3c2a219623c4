//! QR codes of offers, as text and as pixels.

use crate::bindings::{
    picture_bytes, picture_new, picture_png, picture_put_pixel, picture_size, png_of, qr_encode_text,
    qr_get_module, qr_modules, qr_modules_of, qr_size, ErrorCorrection, Picture,
};
use vstd::arithmetic::div_mod::{lemma_fundamental_div_mod_converse, lemma_div_is_ordered};
use vstd::prelude::*;
use vstd::string::StringExecFns;

verus! {

/// Pixels per module, along each axis.
pub const QR_SCALE: u32 = 10;

/// Width of the white border, in pixels.
pub const QR_PADDING: u32 = 40;

/// The character of one module: a full block for dark, a blank for light.
pub open spec fn module_char(dark: bool) -> char {
    if dark {
        '\u{2588}'
    } else {
        ' '
    }
}

/// The text of modules side by side.
pub open spec fn modules_text(modules: Seq<bool>) -> Seq<char> {
    modules.map_values(|dark: bool| module_char(dark))
}

/// The text of a QR code: one line per row, each ended by a line feed.
pub open spec fn qr_text(rows: Seq<Seq<bool>>) -> Seq<char>
    decreases rows.len(),
{
    if rows.len() == 0 {
        Seq::empty()
    } else {
        qr_text(rows.drop_last()) + modules_text(rows.last()).push('\n')
    }
}

/// Renders a QR code as text, one character per module.
pub fn qr_to_string(qr: &qrcodegen::QrCode) -> (result: String)
    ensures
        result@ == qr_text(qr_modules(*qr)),
{
    let size: i32 = qr_size(qr);
    let ghost rows = qr_modules(*qr);
    let mut result = String::new();
    let mut y: i32 = 0;
    assert(rows.take(0) =~= Seq::<Seq<bool>>::empty());
    while y < size
        invariant
            0 <= y <= size,
            rows == qr_modules(*qr),
            size == rows.len(),
            forall|r: int| 0 <= r < size ==> (#[trigger] rows[r]).len() == size,
            result@ == qr_text(rows.take(y as int)),
        decreases size - y,
    {
        let ghost done = result@;
        let mut x: i32 = 0;
        while x < size
            invariant
                0 <= x <= size,
                0 <= y < size,
                rows == qr_modules(*qr),
                size == rows.len(),
                rows[y as int].len() == size,
                result@ == done + modules_text(rows[y as int].take(x as int)),
            decreases size - x,
        {
            let ghost line = result@;
            let dark = qr_get_module(qr, x, y);
            if dark {
                result.append("\u{2588}");
            } else {
                result.append(" ");
            }
            proof {
                reveal_strlit("\u{2588}");
                reveal_strlit(" ");
                let row = rows[y as int];
                assert(dark == row[x as int]);
                assert(result@ =~= line.push(module_char(dark)));
                assert(row.take(x + 1) =~= row.take(x as int).push(row[x as int]));
                assert(modules_text(row.take(x + 1)) =~= modules_text(row.take(x as int)).push(
                    module_char(dark),
                ));
                assert(result@ =~= done + modules_text(row.take(x + 1)));
            }
            x = x + 1;
        }
        result.append("\n");
        proof {
            reveal_strlit("\n");
            assert(rows[y as int].take(size as int) =~= rows[y as int]);
            assert(result@ =~= done + modules_text(rows[y as int]).push('\n'));
            assert(rows.take(y + 1).drop_last() =~= rows.take(y as int));
            assert(rows.take(y + 1).last() == rows[y as int]);
            assert(result@ =~= qr_text(rows.take(y + 1)));
        }
        y = y + 1;
    }
    assert(rows.take(size as int) =~= rows);
    result
}

/// The side of the picture of a code with `size` rows, in pixels.
pub open spec fn image_side(size: int) -> int {
    size * QR_SCALE + 2 * QR_PADDING
}

/// Whether the pixel in column `x` of row `y` lies on a dark module.
pub open spec fn pixel_dark(rows: Seq<Seq<bool>>, x: int, y: int) -> bool {
    &&& QR_PADDING <= x < QR_PADDING + rows.len() * QR_SCALE
    &&& QR_PADDING <= y < QR_PADDING + rows.len() * QR_SCALE
    &&& rows[(y - QR_PADDING) / (QR_SCALE as int)][(x - QR_PADDING) / (QR_SCALE as int)]
}

/// Byte `i` of the picture: black on a dark module, white elsewhere.
pub open spec fn image_byte(rows: Seq<Seq<bool>>, i: int) -> u8 {
    let side = image_side(rows.len() as int);
    let pixel = i / 3;
    if pixel_dark(rows, pixel % side, pixel / side) {
        0u8
    } else {
        255u8
    }
}

/// The bytes of the picture of a QR code.
pub open spec fn image_pixels(rows: Seq<Seq<bool>>) -> Seq<u8> {
    let side = image_side(rows.len() as int);
    Seq::new((side * side * 3) as nat, |i: int| image_byte(rows, i))
}

/// Bytes `3 * pixel` to `3 * pixel + 2` belong to the pixel in column `x` of
/// row `y`.
proof fn lemma_pixel_of_byte(side: int, x: int, y: int, k: int)
    requires
        0 <= x < side,
        0 <= y,
        0 <= k < 3,
    ensures
        ((y * side + x) * 3 + k) / 3 == y * side + x,
        (y * side + x) % side == x,
        (y * side + x) / side == y,
{
    lemma_fundamental_div_mod_converse((y * side + x) * 3 + k, 3, y * side + x, k);
    assert(y * side + x == side * y + x) by (nonlinear_arith);
    lemma_fundamental_div_mod_converse(y * side + x, side, y, x);
}

/// The bytes of a picture of which the first `done` are drawn and the rest
/// is still zero.
spec fn drawn_up_to(rows: Seq<Seq<bool>>, done: int) -> Seq<u8> {
    let side = image_side(rows.len() as int);
    Seq::new(
        (side * side * 3) as nat,
        |i: int|
            if i < done {
                image_byte(rows, i)
            } else {
                0u8
            },
    )
}

/// Draws a QR code: every module becomes a square of `QR_SCALE` pixels,
/// inside a white border of `QR_PADDING` pixels.
pub fn qr_to_image(qr: &qrcodegen::QrCode) -> (image: Picture)
    ensures
        picture_size(image) == (
            image_side(qr_modules(*qr).len() as int),
            image_side(qr_modules(*qr).len() as int),
        ),
        picture_bytes(image) == image_pixels(qr_modules(*qr)),
{
    let size: u32 = qr_size(qr) as u32;
    let ghost rows = qr_modules(*qr);
    let side: u32 = size * QR_SCALE + 2 * QR_PADDING;
    assert(side * side * 3 <= 0x7fff_ffff) by (nonlinear_arith)
        requires
            0 <= side <= 1850,
    ;
    let mut image = picture_new(side, side);
    assert(picture_bytes(image) =~= drawn_up_to(rows, 0));
    let mut y: u32 = 0;
    while y < side
        invariant
            0 <= y <= side,
            21 <= size <= 177,
            rows == qr_modules(*qr),
            size == rows.len(),
            side == image_side(size as int),
            picture_size(image) == (side as int, side as int),
            picture_bytes(image) == drawn_up_to(rows, y * side * 3),
        decreases side - y,
    {
        let mut x: u32 = 0;
        assert(y * side * 3 == (y * side + 0) * 3) by (nonlinear_arith);
        while x < side
            invariant
                0 <= x <= side,
                0 <= y < side,
                21 <= size <= 177,
                rows == qr_modules(*qr),
                size == rows.len(),
                side == image_side(size as int),
                picture_size(image) == (side as int, side as int),
                picture_bytes(image) == drawn_up_to(rows, (y * side + x) * 3),
            decreases side - x,
        {
            let inside = x >= QR_PADDING && y >= QR_PADDING && x < QR_PADDING + size * QR_SCALE
                && y < QR_PADDING + size * QR_SCALE;
            let dark = inside && qr_get_module(
                qr,
                ((x - QR_PADDING) / QR_SCALE) as i32,
                ((y - QR_PADDING) / QR_SCALE) as i32,
            );
            let shade: u8 = if dark {
                0
            } else {
                255
            };
            let ghost base = (y * side + x) * 3;
            proof {
                lemma_pixel_of_byte(side as int, x as int, y as int, 0);
                lemma_pixel_of_byte(side as int, x as int, y as int, 1);
                lemma_pixel_of_byte(side as int, x as int, y as int, 2);
                if inside {
                    let column = (x - QR_PADDING) / (QR_SCALE as int);
                    let row = (y - QR_PADDING) / (QR_SCALE as int);
                    assert(0 <= column < size && 0 <= row < size);
                }
                assert(dark == pixel_dark(rows, x as int, y as int));
                assert(image_byte(rows, base) == shade);
                assert(image_byte(rows, base + 1) == shade);
                assert(image_byte(rows, base + 2) == shade);
                assert(0 <= base && base + 3 <= side * side * 3) by (nonlinear_arith)
                    requires
                        base == (y * side + x) * 3,
                        0 <= x < side,
                        0 <= y < side,
                ;
            }
            picture_put_pixel(&mut image, x, y, shade, shade, shade);
            proof {
                assert((y * side + (x + 1)) * 3 == base + 3) by (nonlinear_arith)
                    requires
                        base == (y * side + x) * 3,
                ;
                assert(picture_bytes(image) =~= drawn_up_to(rows, base + 3));
            }
            x = x + 1;
        }
        assert((y * side + side) * 3 == (y + 1) * side * 3) by (nonlinear_arith);
        y = y + 1;
    }
    assert(picture_bytes(image) =~= image_pixels(rows));
    image
}

/// The picture as a PNG file, or `None` where the encoder gives up.
pub fn image_to_png(image: &Picture) -> (r: Option<Vec<u8>>)
    ensures
        match r {
            Some(file) => png_of(picture_size(*image).0, picture_size(*image).1, picture_bytes(*image))
                == Some(file@),
            None => png_of(picture_size(*image).0, picture_size(*image).1, picture_bytes(*image))
                is None,
        },
{
    picture_png(image)
}

/// The QR code of `text` at the level that offers use, or `None` where the
/// text is too long for any QR code.
pub fn encode_offer(text: &str) -> (r: Option<qrcodegen::QrCode>)
    ensures
        match r {
            Some(qr) => qr_modules_of(text@, ErrorCorrection::Medium) == Some(qr_modules(qr)),
            None => qr_modules_of(text@, ErrorCorrection::Medium) is None,
        },
{
    qr_encode_text(text, ErrorCorrection::Medium)
}

} // verus!
