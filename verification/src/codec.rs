//! The codec adapter: decoding an image of any supported format, telling
//! whether bytes already are WebP, and encoding to WebP at a fixed quality.
//!
//! Decoding and encoding are done by the `image` and `webp` crates. Nothing is
//! proved of them; what this module proves is what becomes of their results.

use crate::job::{Outcome, OutcomeView};
use vstd::prelude::*;

verus! {

/// The quality, out of 100, at which images are encoded.
pub const QUALITY: u8 = 75;

/// The decoded image of the `image` crate: carried from decoder to encoder,
/// never looked into.
#[verifier::external_type_specification]
#[verifier::external_body]
pub struct ExDynamicImage(image::DynamicImage);

/// The `image` crate's error: only ever turned into text.
#[verifier::external_type_specification]
#[verifier::external_body]
pub struct ExImageError(image::ImageError);

/// The bytes carry the WebP signature: more than eleven of them, with the
/// letters `WEBP` at offsets 8 to 11.
pub open spec fn has_target_signature(bytes: Seq<u8>) -> bool {
    &&& bytes.len() > 11
    &&& bytes[8] == 0x57
    &&& bytes[9] == 0x45
    &&& bytes[10] == 0x42
    &&& bytes[11] == 0x50
}

/// `infer::image::is_webp` looks at the length and at the four bytes at
/// offsets 8 to 11, and at nothing else.
pub assume_specification[ infer::image::is_webp ](buf: &[u8]) -> (b: bool)
    ensures
        b == has_target_signature(buf@),
;

/// What the first bytes of a buffer say of its format.
#[derive(Debug, Clone, Copy, PartialEq, Eq, Structural)]
pub enum FormatGuess {
    Png,
    Jpeg,
    Gif,
    WebP,
    Tiff,
    Bmp,
    Ico,
    /// A format that is recognised but not among those above.
    Other,
    /// No format is recognised.
    Unknown,
}

/// The format that the `image` crate's table of signatures gives for a
/// buffer.
pub uninterp spec fn guessed_format(bytes: Seq<u8>) -> FormatGuess;

/// Calls `image::guess_format`, which holds the first bytes against a fixed
/// table of signatures and depends on the bytes alone.
#[verifier::external_body]
fn guess_format(bytes: &[u8]) -> (guess: FormatGuess)
    ensures
        guess == guessed_format(bytes@),
{
    match image::guess_format(bytes) {
        Ok(image::ImageFormat::Png) => FormatGuess::Png,
        Ok(image::ImageFormat::Jpeg) => FormatGuess::Jpeg,
        Ok(image::ImageFormat::Gif) => FormatGuess::Gif,
        Ok(image::ImageFormat::WebP) => FormatGuess::WebP,
        Ok(image::ImageFormat::Tiff) => FormatGuess::Tiff,
        Ok(image::ImageFormat::Bmp) => FormatGuess::Bmp,
        Ok(image::ImageFormat::Ico) => FormatGuess::Ico,
        Ok(_) => FormatGuess::Other,
        Err(_) => FormatGuess::Unknown,
    }
}

/// Calls `image::ImageReader::new` on the bytes, lets it guess the format
/// with `with_guessed_format`, and decodes with `decode`. Nothing is claimed
/// of what comes back.
#[verifier::external_body]
fn read_image(bytes: &[u8]) -> (res: Result<image::DynamicImage, image::ImageError>) {
    match image::ImageReader::new(std::io::Cursor::new(bytes)).with_guessed_format() {
        Ok(reader) => reader.decode(),
        Err(e) => Err(image::ImageError::IoError(e)),
    }
}

/// The `Debug` text of an `image::ImageError`. The impl is derived, so the
/// text starts with the name of the error's variant and is never empty.
#[verifier::external_body]
fn error_text(error: &image::ImageError) -> (text: String)
    ensures
        text@.len() > 0,
{
    format!("{:?}", error)
}

/// An image as the decoder left it, ready to be encoded.
pub struct CanonicalImage {
    inner: image::DynamicImage,
}

/// Whether the `webp` crate's encoder takes the image: it does where the
/// pixels are 8-bit RGB or 8-bit RGBA.
pub uninterp spec fn encoder_takes(image: CanonicalImage) -> bool;

/// The bytes that the `webp` crate's encoder makes of an image that it takes,
/// in a lossy encoding at `quality` out of 100, if it makes any.
pub uninterp spec fn lossy_webp(image: CanonicalImage, quality: u8) -> Option<Seq<u8>>;

/// Calls `webp::Encoder::from_image`, which decides by the variant of the
/// image alone whether it takes it.
#[verifier::external_body]
fn encoder_accepts(image: &CanonicalImage) -> (accepted: bool)
    ensures
        accepted == encoder_takes(*image),
{
    webp::Encoder::from_image(&image.inner).is_ok()
}

/// Calls `webp::Encoder::encode_simple`, on the encoder that
/// `webp::Encoder::from_image` makes for an image it takes, for a lossy
/// encoding at `quality`, which is always [`QUALITY`]. Given the memory it
/// asks for, the encoder's result depends on the pixels and the quality and
/// on nothing else. The bytes are copied out.
#[verifier::external_body]
fn encode_lossy(image: &CanonicalImage, quality: u8) -> (encoded: Option<Vec<u8>>)
    requires
        encoder_takes(*image),
        quality == QUALITY,
    ensures
        match encoded {
            Some(bytes) => lossy_webp(*image, quality) == Some(bytes@),
            None => lossy_webp(*image, quality) is None,
        },
{
    match webp::Encoder::from_image(&image.inner) {
        Ok(encoder) => match encoder.encode_simple(false, quality.into()) {
            Ok(memory) => Some(memory.to_vec()),
            Err(_) => None,
        },
        Err(_) => None,
    }
}

/// Why bytes gave no image.
#[derive(Debug, Clone, PartialEq, Eq)]
pub enum DecodeError {
    /// No image format is recognised in the bytes: no decoder saw them.
    Unrecognised,
    /// A format is recognised, and the decoder failed, with these words.
    Decoder(String),
}

/// The mathematical value of a [`DecodeError`].
pub enum DecodeErrorView {
    Unrecognised,
    Decoder(Seq<char>),
}

impl View for DecodeError {
    type V = DecodeErrorView;

    open spec fn view(&self) -> DecodeErrorView {
        match self {
            DecodeError::Unrecognised => DecodeErrorView::Unrecognised,
            DecodeError::Decoder(words) => DecodeErrorView::Decoder(words@),
        }
    }
}

/// Why an image could not be encoded.
#[derive(Debug, Clone, Copy, PartialEq, Eq, Structural)]
pub enum EncodeError {
    /// The encoder takes 8-bit RGB and RGBA pixels only.
    UnsupportedPixels,
    /// The encoder gave up.
    EncoderFailed,
    /// What the encoder produced does not carry the WebP signature.
    NotTargetFormat,
}

/// Why a submitted image was not converted.
#[derive(Debug, Clone, PartialEq, Eq)]
pub enum ConversionError {
    /// It could not be decoded.
    Decode(DecodeError),
    /// It was decoded and could not be encoded.
    Encode(EncodeError),
}

/// The mathematical value of a [`ConversionError`].
pub enum ConversionErrorView {
    Decode(DecodeErrorView),
    Encode(EncodeError),
}

impl View for ConversionError {
    type V = ConversionErrorView;

    open spec fn view(&self) -> ConversionErrorView {
        match self {
            ConversionError::Decode(e) => ConversionErrorView::Decode(e@),
            ConversionError::Encode(e) => ConversionErrorView::Encode(*e),
        }
    }
}

impl DecodeErrorView {
    /// The reason recorded on a job whose image could not be decoded: the
    /// decoder's words, where a decoder saw the bytes.
    pub open spec fn reason(self) -> Seq<char> {
        match self {
            DecodeErrorView::Unrecognised => "no image format is recognised in the bytes"@,
            DecodeErrorView::Decoder(words) => words,
        }
    }
}

impl EncodeError {
    /// The reason recorded on a job whose image could not be encoded.
    pub open spec fn reason(self) -> Seq<char> {
        match self {
            EncodeError::UnsupportedPixels => "encode: unsupported pixel layout"@,
            EncodeError::EncoderFailed => "encode: the encoder failed"@,
            EncodeError::NotTargetFormat => "encode: the output is not WebP"@,
        }
    }

    /// The reason recorded on a job whose image could not be encoded.
    pub fn describe(&self) -> (text: String)
        ensures
            text@ == self.reason(),
    {
        match self {
            EncodeError::UnsupportedPixels => "encode: unsupported pixel layout".to_owned(),
            EncodeError::EncoderFailed => "encode: the encoder failed".to_owned(),
            EncodeError::NotTargetFormat => "encode: the output is not WebP".to_owned(),
        }
    }
}

impl ConversionErrorView {
    /// The reason recorded on a job whose image was not converted.
    pub open spec fn reason(self) -> Seq<char> {
        match self {
            ConversionErrorView::Decode(e) => e.reason(),
            ConversionErrorView::Encode(e) => e.reason(),
        }
    }
}

impl DecodeError {
    /// The reason recorded on a job whose image could not be decoded.
    pub fn describe(&self) -> (text: String)
        ensures
            text@ == self@.reason(),
    {
        match self {
            DecodeError::Unrecognised => "no image format is recognised in the bytes".to_owned(),
            DecodeError::Decoder(words) => words.clone(),
        }
    }
}

impl ConversionError {
    /// The reason recorded on a job whose image was not converted.
    pub fn describe(&self) -> (text: String)
        ensures
            text@ == self@.reason(),
    {
        match self {
            ConversionError::Decode(e) => e.describe(),
            ConversionError::Encode(e) => e.describe(),
        }
    }
}

/// Guesses the format of a buffer from its first bytes, decoding nothing.
pub fn detect_format(bytes: &[u8]) -> (guess: FormatGuess)
    ensures
        guess == guessed_format(bytes@),
{
    guess_format(bytes)
}

/// Whether the bytes already are in the target format, by their signature.
pub fn is_target_format(bytes: &[u8]) -> (b: bool)
    ensures
        b == has_target_signature(bytes@),
{
    infer::image::is_webp(bytes)
}

/// Decodes an image of any supported format, guessed from its first bytes.
/// Bytes in which no format is recognised are refused as such, and no
/// others are; whether bytes of a recognised format decode is the decoder's
/// to say, and its words are never empty.
pub fn decode(bytes: &[u8]) -> (res: Result<CanonicalImage, DecodeError>)
    ensures
        (guessed_format(bytes@) is Unknown) == (res matches Err(e) && e is Unrecognised),
        res matches Err(DecodeError::Decoder(words)) ==> words@.len() > 0,
{
    match detect_format(bytes) {
        FormatGuess::Unknown => Err(DecodeError::Unrecognised),
        _ => match read_image(bytes) {
            Ok(inner) => Ok(CanonicalImage { inner }),
            Err(error) => Err(DecodeError::Decoder(error_text(&error))),
        },
    }
}

/// Accepts what the encoder produced if it carries the WebP signature.
pub fn check_encoded(encoded: Vec<u8>) -> (res: Result<Vec<u8>, EncodeError>)
    ensures
        match res {
            Ok(bytes) => has_target_signature(encoded@) && bytes@ == encoded@,
            Err(e) => !has_target_signature(encoded@) && e == EncodeError::NotTargetFormat,
        },
{
    if is_target_format(encoded.as_slice()) {
        Ok(encoded)
    } else {
        Err(EncodeError::NotTargetFormat)
    }
}

/// What encoding an image comes to: the encoder's bytes where it takes the
/// image, makes bytes of it and they carry the WebP signature, and else the
/// error that says which of these failed.
pub open spec fn encoding(image: CanonicalImage) -> Result<Seq<u8>, EncodeError> {
    if !encoder_takes(image) {
        Err(EncodeError::UnsupportedPixels)
    } else {
        match lossy_webp(image, QUALITY) {
            None => Err(EncodeError::EncoderFailed),
            Some(bytes) => if has_target_signature(bytes) {
                Ok(bytes)
            } else {
                Err(EncodeError::NotTargetFormat)
            },
        }
    }
}

/// Encodes an image as lossy WebP at [`QUALITY`].
pub fn encode(image: &CanonicalImage) -> (res: Result<Vec<u8>, EncodeError>)
    ensures
        match res {
            Ok(bytes) => encoding(*image) == Ok::<Seq<u8>, EncodeError>(bytes@),
            Err(e) => encoding(*image) == Err::<Seq<u8>, EncodeError>(e),
        },
{
    if !encoder_accepts(image) {
        Err(EncodeError::UnsupportedPixels)
    } else {
        match encode_lossy(image, QUALITY) {
            None => Err(EncodeError::EncoderFailed),
            Some(encoded) => check_encoded(encoded),
        }
    }
}

/// The outcome of a job whose image had to be encoded.
pub fn outcome_of_encoding(encoded: Result<Vec<u8>, EncodeError>) -> (outcome: Outcome)
    ensures
        outcome@ == match encoded {
            Ok(bytes) => OutcomeView::Converted(bytes@),
            Err(e) => OutcomeView::Failed(ConversionErrorView::Encode(e)),
        },
{
    match encoded {
        Ok(bytes) => Outcome::Converted(bytes),
        Err(e) => Outcome::Failed(ConversionError::Encode(e)),
    }
}

/// What becomes of a decoded image that was submitted as `submitted`: the
/// submitted bytes themselves if they already are WebP, and else what
/// encoding the image comes to.
pub open spec fn converted_from(submitted: Seq<u8>, image: CanonicalImage) -> OutcomeView {
    if has_target_signature(submitted) {
        OutcomeView::Converted(submitted)
    } else {
        match encoding(image) {
            Ok(bytes) => OutcomeView::Converted(bytes),
            Err(e) => OutcomeView::Failed(ConversionErrorView::Encode(e)),
        }
    }
}

/// What becomes of bytes in which a format is recognised and which the
/// decoder refused with `words`.
pub open spec fn refused_by_decoder(words: Seq<char>) -> OutcomeView {
    OutcomeView::Failed(ConversionErrorView::Decode(DecodeErrorView::Decoder(words)))
}

/// The outcome of a job once its image went through the decoder: the
/// decoder's failure if it did not decode, and else what becomes of the
/// decoded image.
pub fn convert_decoded(payload: Vec<u8>, decoded: Result<CanonicalImage, DecodeError>) -> (outcome:
    Outcome)
    ensures
        outcome@ == match decoded {
            Err(e) => OutcomeView::Failed(ConversionErrorView::Decode(e@)),
            Ok(image) => converted_from(payload@, image),
        },
{
    match decoded {
        Err(e) => Outcome::Failed(ConversionError::Decode(e)),
        Ok(image) => {
            if is_target_format(payload.as_slice()) {
                Outcome::Converted(payload)
            } else {
                outcome_of_encoding(encode(&image))
            }
        },
    }
}

/// What the conversion of an image submitted as `submitted` comes to.
///
/// Bytes in which no format is recognised fail as unrecognised. Of all
/// others the decoder says whether they are an image: if it refuses them,
/// the conversion fails with its words, which are never empty; if it gives
/// an image, the outcome is what becomes of that image.
pub open spec fn conversion_outcome(submitted: Seq<u8>, outcome: OutcomeView) -> bool {
    if guessed_format(submitted) is Unknown {
        outcome == OutcomeView::Failed(ConversionErrorView::Decode(DecodeErrorView::Unrecognised))
    } else {
        ||| exists|words: Seq<char>|
            words.len() > 0 && outcome == #[trigger] refused_by_decoder(words)
        ||| exists|image: CanonicalImage| outcome == #[trigger] converted_from(submitted, image)
    }
}

/// Converts one submitted image to the target format.
pub fn convert(payload: Vec<u8>) -> (outcome: Outcome)
    ensures
        conversion_outcome(payload@, outcome@),
{
    let decoded = decode(payload.as_slice());
    let ghost seen = decoded;
    let outcome = convert_decoded(payload, decoded);
    proof {
        match seen {
            Err(DecodeError::Unrecognised) => {},
            Err(DecodeError::Decoder(words)) => {
                assert(outcome@ == refused_by_decoder(words@));
            },
            Ok(image) => {
                assert(outcome@ == converted_from(payload@, image));
            },
        }
    }
    outcome
}

} // verus!
