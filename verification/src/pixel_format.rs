//! The format translator: a bidirectional mapping between a backend's native
//! four-byte format code and the portable pixel-format vocabulary.
//!
//! Decoding is total: a code outside the table becomes a `Custom` format that
//! records the code as text. Encoding is partial: only the canonical variants
//! in the table have a native code, and `Custom` never encodes, so unknown
//! codes can be observed on read but are never requested from a backend.

use vstd::prelude::*;

verus! {

/// A portable pixel format, the vocabulary every backend translates into.
///
/// The payload of each colour or depth variant is its total bits per pixel.
/// `Custom` carries the text form of a native code with no portable
/// counterpart.
#[derive(Clone, Debug, PartialEq, Eq)]
pub enum PixelFormat {
    Gray(u32),
    Depth(u32),
    Bgr(u32),
    Bgra(u32),
    Rgb(u32),
    Rgba(u32),
    Jpeg,
    Custom(String),
}

/// Failure of `PixelFormat::encode`: the format has no native code.
#[derive(Clone, Copy, Debug, PartialEq, Eq, Structural)]
pub struct Unrepresentable;

/// The native code "GREY".
pub open spec fn grey_code() -> Seq<u8> {
    seq![0x47u8, 0x52u8, 0x45u8, 0x59u8]
}

/// The native code "Y16 ".
pub open spec fn y16_code() -> Seq<u8> {
    seq![0x59u8, 0x31u8, 0x36u8, 0x20u8]
}

/// The native code "Z16 ".
pub open spec fn z16_code() -> Seq<u8> {
    seq![0x5Au8, 0x31u8, 0x36u8, 0x20u8]
}

/// The native code "BGR3".
pub open spec fn bgr3_code() -> Seq<u8> {
    seq![0x42u8, 0x47u8, 0x52u8, 0x33u8]
}

/// The native code "AR24".
pub open spec fn ar24_code() -> Seq<u8> {
    seq![0x41u8, 0x52u8, 0x32u8, 0x34u8]
}

/// The native code "RGB3".
pub open spec fn rgb3_code() -> Seq<u8> {
    seq![0x52u8, 0x47u8, 0x42u8, 0x33u8]
}

/// The native code "AB24".
pub open spec fn ab24_code() -> Seq<u8> {
    seq![0x41u8, 0x42u8, 0x32u8, 0x34u8]
}

/// The native code "MJPG".
pub open spec fn mjpg_code() -> Seq<u8> {
    seq![0x4Du8, 0x4Au8, 0x50u8, 0x47u8]
}

/// The native code of a portable format, where one exists.
///
/// This is the encode direction of the table: exactly the eight canonical
/// variants have a code, and `Custom` never does, whatever its payload.
pub open spec fn native_code(f: PixelFormat) -> Option<Seq<u8>> {
    match f {
        PixelFormat::Gray(bits) => if bits == 8 {
            Some(grey_code())
        } else if bits == 16 {
            Some(y16_code())
        } else {
            None
        },
        PixelFormat::Depth(bits) => if bits == 16 {
            Some(z16_code())
        } else {
            None
        },
        PixelFormat::Bgr(bits) => if bits == 24 {
            Some(bgr3_code())
        } else {
            None
        },
        PixelFormat::Bgra(bits) => if bits == 32 {
            Some(ar24_code())
        } else {
            None
        },
        PixelFormat::Rgb(bits) => if bits == 24 {
            Some(rgb3_code())
        } else {
            None
        },
        PixelFormat::Rgba(bits) => if bits == 32 {
            Some(ab24_code())
        } else {
            None
        },
        PixelFormat::Jpeg => Some(mjpg_code()),
        PixelFormat::Custom(_) => None,
    }
}

/// The portable format a native code denotes, where the code is in the table.
pub open spec fn known_format(c: Seq<u8>) -> Option<PixelFormat> {
    if c == grey_code() {
        Some(PixelFormat::Gray(8))
    } else if c == y16_code() {
        Some(PixelFormat::Gray(16))
    } else if c == z16_code() {
        Some(PixelFormat::Depth(16))
    } else if c == bgr3_code() {
        Some(PixelFormat::Bgr(24))
    } else if c == ar24_code() {
        Some(PixelFormat::Bgra(32))
    } else if c == rgb3_code() {
        Some(PixelFormat::Rgb(24))
    } else if c == ab24_code() {
        Some(PixelFormat::Rgba(32))
    } else if c == mjpg_code() {
        Some(PixelFormat::Jpeg)
    } else {
        None
    }
}

/// The text form of a native code, as `String::from_utf8_lossy` reads it.
pub uninterp spec fn lossy_text(code: Seq<u8>) -> Seq<char>;

/// Relies on `String::from_utf8_lossy`: its result is a function of the bytes
/// alone, and bytes that are all ASCII come through as the characters they
/// spell.
#[verifier::external_body]
fn code_text(code: &[u8; 4]) -> (r: String)
    ensures
        r@ == lossy_text(code@),
        (forall|i: int| 0 <= i < code@.len() ==> code@[i] < 0x80) ==> r@ == code@.map_values(
            |b: u8| b as char,
        ),
{
    String::from_utf8_lossy(code).into_owned()
}

impl PixelFormat {
    /// Translate a native four-byte code into the portable vocabulary.
    ///
    /// Total: a code in the table yields its canonical variant; any other
    /// code yields `Custom` carrying the code's text form.
    pub fn decode(code: &[u8; 4]) -> (r: PixelFormat)
        ensures
            known_format(code@) matches Some(f) ==> r == f,
            known_format(code@) is None ==> (r matches PixelFormat::Custom(s) && s@ == lossy_text(
                code@,
            )),
            known_format(code@) is None && (forall|i: int|
                0 <= i < code@.len() ==> code@[i] < 0x80) ==> (r matches PixelFormat::Custom(s)
                && s@ == code@.map_values(|b: u8| b as char)),
    {
        let b0 = code[0];
        let b1 = code[1];
        let b2 = code[2];
        let b3 = code[3];
        if b0 == 0x47 && b1 == 0x52 && b2 == 0x45 && b3 == 0x59 {
            proof {
                assert(code@ =~= grey_code());
            }
            PixelFormat::Gray(8)
        } else if b0 == 0x59 && b1 == 0x31 && b2 == 0x36 && b3 == 0x20 {
            proof {
                assert(code@ =~= y16_code());
            }
            PixelFormat::Gray(16)
        } else if b0 == 0x5A && b1 == 0x31 && b2 == 0x36 && b3 == 0x20 {
            proof {
                assert(code@ =~= z16_code());
            }
            PixelFormat::Depth(16)
        } else if b0 == 0x42 && b1 == 0x47 && b2 == 0x52 && b3 == 0x33 {
            proof {
                assert(code@ =~= bgr3_code());
            }
            PixelFormat::Bgr(24)
        } else if b0 == 0x41 && b1 == 0x52 && b2 == 0x32 && b3 == 0x34 {
            proof {
                assert(code@ =~= ar24_code());
            }
            PixelFormat::Bgra(32)
        } else if b0 == 0x52 && b1 == 0x47 && b2 == 0x42 && b3 == 0x33 {
            proof {
                assert(code@ =~= rgb3_code());
            }
            PixelFormat::Rgb(24)
        } else if b0 == 0x41 && b1 == 0x42 && b2 == 0x32 && b3 == 0x34 {
            proof {
                assert(code@ =~= ab24_code());
            }
            PixelFormat::Rgba(32)
        } else if b0 == 0x4D && b1 == 0x4A && b2 == 0x50 && b3 == 0x47 {
            proof {
                assert(code@ =~= mjpg_code());
            }
            PixelFormat::Jpeg
        } else {
            PixelFormat::Custom(code_text(code))
        }
    }

    /// Translate this portable format to its native code.
    ///
    /// Partial: exactly the canonical variants of the table succeed; `Custom`
    /// and any bit depth without a native counterpart are `Unrepresentable`.
    pub fn encode(&self) -> (r: Result<[u8; 4], Unrepresentable>)
        ensures
            native_code(*self) matches Some(c) ==> (r matches Ok(a) && a@ == c),
            native_code(*self) is None ==> r == Err::<[u8; 4], Unrepresentable>(Unrepresentable),
    {
        match self {
            PixelFormat::Gray(8u32) => Ok([0x47, 0x52, 0x45, 0x59]),
            PixelFormat::Gray(16u32) => Ok([0x59, 0x31, 0x36, 0x20]),
            PixelFormat::Depth(16u32) => Ok([0x5A, 0x31, 0x36, 0x20]),
            PixelFormat::Bgr(24u32) => Ok([0x42, 0x47, 0x52, 0x33]),
            PixelFormat::Bgra(32u32) => Ok([0x41, 0x52, 0x32, 0x34]),
            PixelFormat::Rgb(24u32) => Ok([0x52, 0x47, 0x42, 0x33]),
            PixelFormat::Rgba(32u32) => Ok([0x41, 0x42, 0x32, 0x34]),
            PixelFormat::Jpeg => Ok([0x4D, 0x4A, 0x50, 0x47]),
            _ => Err(Unrepresentable),
        }
    }
}

/// Law: every native code in the table round-trips — decoding it yields a
/// format whose own native code is the original code, exactly.
pub proof fn lemma_code_round_trip(c: Seq<u8>)
    ensures
        known_format(c) matches Some(f) ==> native_code(f) == Some(c),
{
}

/// Law: a `Custom` format never encodes, whatever its payload — even text
/// that spells a code from the table.
pub proof fn lemma_custom_never_encodes(s: String)
    ensures
        native_code(PixelFormat::Custom(s)) is None,
{
}

} // verus!
