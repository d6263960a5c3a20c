//! The PNG frame sink: BGRA to RGBA conversion, the frame image, and the
//! zero-padded frame file names.

use vstd::prelude::*;
use vstd::string::StringExecFns;
use crate::error::EncodeError;
use crate::text::{
    decimal, digits_value, lemma_decimal_is_digits, lemma_decimal_len_upper, lemma_decimal_value,
    lemma_zero_padded_shape, lemma_zero_padded_value, pow10, push_zero_padded, zero_padded,
};

verus! {

/// The byte of a BGRA buffer that lands at position `i` of the RGBA buffer:
/// blue and red trade places within each 4-byte pixel.
pub open spec fn swapped_index(i: int) -> int {
    if i % 4 == 0 {
        i + 2
    } else if i % 4 == 2 {
        i - 2
    } else {
        i
    }
}

/// The RGBA buffer made from the BGRA buffer `bgra`: same length, each whole
/// 4-byte pixel with its first and third bytes exchanged, and the bytes of a
/// trailing partial pixel set to zero.
pub open spec fn bgra_to_rgba_spec(bgra: Seq<u8>) -> Seq<u8> {
    let whole = bgra.len() - bgra.len() % 4;
    Seq::new(bgra.len(), |i: int| if i < whole { bgra[swapped_index(i)] } else { 0u8 })
}

/// Convert a BGRA frame into RGBA byte order.
pub fn bgra_to_rgba(bgra: &[u8]) -> (rgba: Vec<u8>)
    ensures
        rgba@ == bgra_to_rgba_spec(bgra@),
{
    let len = bgra.len();
    let pixels = len / 4;
    let mut rgba: Vec<u8> = Vec::with_capacity(len);
    let mut p: usize = 0;
    while p < pixels
        invariant
            len == bgra.len(),
            pixels == len / 4,
            p <= pixels,
            rgba.len() == 4 * p,
            forall|i: int| 0 <= i < 4 * p ==> #[trigger] rgba@[i] == bgra@[swapped_index(i)],
        decreases pixels - p,
    {
        let base = 4 * p;
        rgba.push(bgra[base + 2]);
        rgba.push(bgra[base + 1]);
        rgba.push(bgra[base]);
        rgba.push(bgra[base + 3]);
        proof {
            assert forall|i: int| 0 <= i < 4 * (p + 1) implies #[trigger] rgba@[i]
                == bgra@[swapped_index(i)] by {
                if i >= 4 * p {
                    assert(i - 4 * p == 0 || i - 4 * p == 1 || i - 4 * p == 2 || i - 4 * p == 3);
                    assert(i % 4 == i - 4 * p) by {
                        assert(i == 4 * p + (i - 4 * p));
                    }
                }
            }
        }
        p = p + 1;
    }
    while rgba.len() < len
        invariant
            len == bgra.len(),
            pixels == len / 4,
            4 * pixels <= rgba.len() <= len,
            forall|i: int| 0 <= i < 4 * pixels ==> #[trigger] rgba@[i] == bgra@[swapped_index(i)],
            forall|i: int| 4 * pixels <= i < rgba.len() ==> #[trigger] rgba@[i] == 0u8,
        decreases len - rgba.len(),
    {
        rgba.push(0u8);
    }
    proof {
        assert(len - len % 4 == 4 * pixels);
        assert(rgba@ =~= bgra_to_rgba_spec(bgra@));
    }
    rgba
}

/// Converting twice gives back a buffer of whole pixels unchanged.
pub proof fn lemma_bgra_rgba_round_trip(bgra: Seq<u8>)
    requires
        bgra.len() % 4 == 0,
    ensures
        bgra_to_rgba_spec(bgra_to_rgba_spec(bgra)) == bgra,
{
    let once = bgra_to_rgba_spec(bgra);
    assert forall|i: int| 0 <= i < bgra.len() implies #[trigger] bgra_to_rgba_spec(once)[i]
        == bgra[i] by {
        assert(swapped_index(i) % 4 == if i % 4 == 0 { 2 } else if i % 4 == 2 { 0 } else { i % 4 });
        assert(swapped_index(swapped_index(i)) == i);
    }
    assert(bgra_to_rgba_spec(once) =~= bgra);
}

/// Each whole pixel `p` of a BGRA buffer of any length becomes the RGBA
/// pixel with red and blue exchanged: bytes `4p+2, 4p+1, 4p, 4p+3` of the
/// input, in that order.
pub proof fn lemma_bgra_to_rgba_pixel(bgra: Seq<u8>, p: int)
    requires
        0 <= p,
        4 * p + 3 < bgra.len(),
    ensures
        bgra_to_rgba_spec(bgra).len() == bgra.len(),
        bgra_to_rgba_spec(bgra)[4 * p] == bgra[4 * p + 2],
        bgra_to_rgba_spec(bgra)[4 * p + 1] == bgra[4 * p + 1],
        bgra_to_rgba_spec(bgra)[4 * p + 2] == bgra[4 * p],
        bgra_to_rgba_spec(bgra)[4 * p + 3] == bgra[4 * p + 3],
{
    let len = bgra.len() as int;
    assert(len - len % 4 >= 4 * p + 4);
    assert((4 * p) % 4 == 0);
    assert((4 * p + 1) % 4 == 1);
    assert((4 * p + 2) % 4 == 2);
    assert((4 * p + 3) % 4 == 3);
}

/// The bytes of a trailing partial pixel come out as zero.
pub proof fn lemma_bgra_to_rgba_partial_pixel(bgra: Seq<u8>, i: int)
    requires
        bgra.len() - bgra.len() % 4 <= i < bgra.len(),
    ensures
        bgra_to_rgba_spec(bgra)[i] == 0u8,
{
}

/// The file name of frame `index` in a PNG sequence: `frame_`, the index
/// zero-padded to at least six digits, and `.png`.
pub open spec fn frame_file_name_spec(index: nat) -> Seq<char> {
    "frame_"@ + zero_padded(decimal(index), 6) + ".png"@
}

/// Distinct frames are written to distinct files: the frame file name
/// determines the frame index.
pub proof fn lemma_frame_file_names_distinct(a: nat, b: nat)
    requires
        frame_file_name_spec(a) == frame_file_name_spec(b),
    ensures
        a == b,
{
    reveal_strlit("frame_");
    reveal_strlit(".png");
    let pa = zero_padded(decimal(a), 6);
    let pb = zero_padded(decimal(b), 6);
    let na = frame_file_name_spec(a);
    assert(na.len() == 6 + pa.len() + 4);
    assert(frame_file_name_spec(b).len() == 6 + pb.len() + 4);
    assert(pa =~= na.subrange(6, na.len() - 4));
    assert(pb =~= frame_file_name_spec(b).subrange(6, na.len() - 4));
    lemma_zero_padded_value(decimal(a), 6);
    lemma_zero_padded_value(decimal(b), 6);
    lemma_decimal_value(a);
    lemma_decimal_value(b);
}

/// Below a million, every frame file name is `frame_`, exactly six digits
/// that read back as the frame index, and `.png`.
pub proof fn lemma_frame_file_name_six_digits(index: nat)
    requires
        index < 1_000_000,
    ensures
        frame_file_name_spec(index).len() == 16,
        frame_file_name_spec(index).take(6) == "frame_"@,
        frame_file_name_spec(index).skip(12) == ".png"@,
        forall|j: int|
            6 <= j < 12 ==> 48 <= #[trigger] (frame_file_name_spec(index)[j] as int) <= 57,
        digits_value(frame_file_name_spec(index).subrange(6, 12)) == index,
{
    reveal_strlit("frame_");
    reveal_strlit(".png");
    assert(pow10(6) == 1_000_000) by {
        reveal_with_fuel(pow10, 7);
    }
    lemma_decimal_len_upper(index, 6);
    let d = decimal(index);
    let padded = zero_padded(d, 6);
    lemma_zero_padded_shape(d, 6);
    lemma_decimal_is_digits(index);
    lemma_zero_padded_value(d, 6);
    lemma_decimal_value(index);
    let name = frame_file_name_spec(index);
    assert(padded.len() == 6);
    assert(name.subrange(6, 12) =~= padded);
    assert(name.take(6) =~= "frame_"@);
    assert(name.skip(12) =~= ".png"@);
    assert forall|j: int| 6 <= j < 12 implies 48 <= #[trigger] (name[j] as int) <= 57 by {
        assert(name[j] == padded[j - 6]);
        let k = j - 6;
        if k < 6 - d.len() {
            assert(padded[k] == '0');
        } else {
            assert(padded.skip(6 - d.len())[k - (6 - d.len())] == padded[k]);
            assert(padded[k] == d[k - (6 - d.len())]);
        }
    }
}

/// The file name of frame `index` in a PNG sequence (`frame_000042.png`).
pub fn frame_file_name(index: u64) -> (name: String)
    ensures
        name@ == frame_file_name_spec(index as nat),
{
    let mut name = String::from_str("frame_");
    push_zero_padded(&mut name, index, 6);
    name.append(".png");
    name
}

/// An RGBA image of the `image` crate holding one frame, ready to be saved
/// as a PNG. Its pixel bytes and its dimensions are named by
/// [`frame_pixels`] and [`frame_dimensions`].
#[verifier::external_body]
pub struct FrameImage {
    /// The `image` crate's buffer.
    pub image: image::RgbaImage,
}

/// The raw RGBA bytes that a frame image holds, row by row.
pub uninterp spec fn frame_pixels(img: FrameImage) -> Seq<u8>;

/// The `(width, height)` of a frame image.
pub uninterp spec fn frame_dimensions(img: FrameImage) -> (u32, u32);

/// `image::RgbaImage::from_raw(width, height, buf)`.
///
/// Claims what the crate's source shows: the result is `Some` exactly when
/// the checked products `4 * width` and `4 * width * height` fit in `usize`
/// and the latter is at most `buf.len()`, and the image then holds `buf` as
/// its bytes and `(width, height)` as its size.
#[verifier::external_body]
fn rgba_image_from_raw(width: u32, height: u32, buf: Vec<u8>) -> (r: Option<FrameImage>)
    ensures
        r.is_some() == (4 * width <= usize::MAX && 4 * width * height <= usize::MAX && 4 * width
            * height <= buf.len()),
        r.is_some() ==> frame_pixels(r.unwrap()) == buf@,
        r.is_some() ==> frame_dimensions(r.unwrap()) == (width, height),
{
    match image::RgbaImage::from_raw(width, height, buf) {
        Some(image) => Some(FrameImage { image }),
        None => None,
    }
}

/// The I/O error that `std::io::Error::other` makes from a message.
pub uninterp spec fn io_error_other_spec(message: Seq<char>) -> std::io::Error;

/// `std::io::Error::other(message)`: an error of kind `Other` carrying the
/// message (named by `io_error_other_spec`).
#[verifier::external_body]
pub(crate) fn io_error_other(message: String) -> (e: std::io::Error)
    ensures
        e == io_error_other_spec(message@),
{
    std::io::Error::other(message)
}

/// The message of the error returned when a frame buffer is too small for
/// its width and height.
pub open spec fn size_mismatch_message() -> Seq<char> {
    "rgba buffer size mismatch"@
}

/// The RGBA image of one BGRA frame, ready to be saved as a PNG.
///
/// Fails with an I/O error when the buffer holds fewer than
/// `4 * width * height` bytes (or that size does not fit in `usize`).
pub fn rgba_frame_image(width: u32, height: u32, bgra: &[u8]) -> (r: Result<FrameImage, EncodeError>)
    ensures
        r is Ok <==> 4 * width <= usize::MAX && 4 * width * height <= usize::MAX && 4 * width
            * height <= bgra.len(),
        r matches Ok(img) ==> frame_pixels(img) == bgra_to_rgba_spec(bgra@) && frame_dimensions(img)
            == (width, height),
        r matches Err(e) ==> e == EncodeError::Io(io_error_other_spec(size_mismatch_message())),
{
    let rgba = bgra_to_rgba(bgra);
    match rgba_image_from_raw(width, height, rgba) {
        Some(img) => Ok(img),
        None => {
            proof {
                reveal_strlit("rgba buffer size mismatch");
            }
            Err(EncodeError::Io(io_error_other(String::from_str("rgba buffer size mismatch"))))
        },
    }
}

} // verus!
