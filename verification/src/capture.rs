//! Screen capture: the on/off state of the capture loop, the choice of the
//! monitor to capture, and the encoding of a captured frame into the
//! Base64 JPEG text that is sent to the viewer.
use vstd::prelude::*;
use vstd::string::*;

verus! {

/// Milliseconds between two captured frames (about 30 frames a second).
pub const FRAME_INTERVAL_MS: u64 = 33;

/// The error text when a capture is started while one is running.
pub open spec fn already_running_message() -> Seq<char> {
    "Capture is already running"@
}

/// Starting capture from state `running`: capture is on afterwards, and the
/// request is accepted only when it was off.
pub open spec fn start_outcome(running: bool) -> (bool, bool) {
    (true, !running)
}

/// Whether the capture loop should run.
pub struct ScreenCapture {
    is_capturing: bool,
}

impl View for ScreenCapture {
    type V = bool;

    closed spec fn view(&self) -> bool {
        self.is_capturing
    }
}

impl ScreenCapture {
    /// Capture is off at first.
    pub fn new() -> (r: Self)
        ensures
            !r@,
    {
        ScreenCapture { is_capturing: false }
    }

    /// Turns capture on; fails, changing nothing, when it is already on.
    pub fn start_capture(&mut self) -> (r: Result<(), String>)
        ensures
            (final(self)@, r is Ok) == start_outcome(old(self)@),
            r matches Err(e) ==> e@ == already_running_message(),
    {
        if self.is_capturing {
            return Err(String::from_str("Capture is already running"));
        }
        self.is_capturing = true;
        Ok(())
    }

    /// Turns capture off; the capture loop stops at its next check.
    pub fn stop_capture(&mut self)
        ensures
            !final(self)@,
    {
        self.is_capturing = false;
    }

    /// Whether the capture loop should go on.
    pub fn is_capturing(&self) -> (r: bool)
        ensures
            r == self@,
    {
        self.is_capturing
    }
}

/// A second start while capture runs is refused, and a start after a stop
/// is accepted.
pub proof fn law_start_stop_start(running: bool)
    ensures
        !start_outcome(start_outcome(running).0).1,
        start_outcome(false).1,
{
}

/// The index of the first monitor that reports itself primary. A monitor
/// whose answer could not be had (`None`) counts as not primary.
pub fn primary_monitor_index(is_primary: &Vec<Option<bool>>) -> (r: Option<usize>)
    ensures
        match r {
            Some(i) => i < is_primary@.len() && is_primary@[i as int] == Some(true) && forall|j: int|
                0 <= j < i ==> is_primary@[j] != Some(true),
            None => forall|j: int| 0 <= j < is_primary@.len() ==> is_primary@[j] != Some(true),
        },
{
    let mut i: usize = 0;
    while i < is_primary.len()
        invariant
            i <= is_primary@.len(),
            forall|j: int| 0 <= j < i ==> is_primary@[j] != Some(true),
        decreases is_primary@.len() - i,
    {
        match is_primary[i] {
            Some(true) => return Some(i),
            _ => {},
        }
        i = i + 1;
    }
    None
}

/// The Base64 alphabet of RFC 4648: `A`-`Z`, `a`-`z`, `0`-`9`, `+`, `/`.
pub open spec fn base64_symbol(v: int) -> char {
    if v < 26 {
        (65 + v) as char
    } else if v < 52 {
        (97 + v - 26) as char
    } else if v < 62 {
        (48 + v - 52) as char
    } else if v == 62 {
        '+'
    } else {
        '/'
    }
}

/// The standard Base64 encoding (RFC 4648, with `=` padding) of `b`: each
/// group of three bytes becomes four symbols of six bits each; a final group
/// of one or two bytes is padded with `=`.
pub open spec fn base64_encode(b: Seq<u8>) -> Seq<char>
    decreases b.len(),
{
    if b.len() == 0 {
        Seq::empty()
    } else {
        let b0 = b[0] as int;
        if b.len() == 1 {
            seq![base64_symbol(b0 / 4), base64_symbol((b0 % 4) * 16), '=', '=']
        } else {
            let b1 = b[1] as int;
            if b.len() == 2 {
                seq![
                    base64_symbol(b0 / 4),
                    base64_symbol((b0 % 4) * 16 + b1 / 16),
                    base64_symbol((b1 % 16) * 4),
                    '=',
                ]
            } else {
                let b2 = b[2] as int;
                seq![
                    base64_symbol(b0 / 4),
                    base64_symbol((b0 % 4) * 16 + b1 / 16),
                    base64_symbol((b1 % 16) * 4 + b2 / 64),
                    base64_symbol(b2 % 64),
                ] + base64_encode(b.skip(3))
            }
        }
    }
}

/// Standard Base64 encoding with padding.
///
/// Calls `base64::Engine::encode` on `base64::engine::general_purpose::STANDARD`,
/// the RFC 4648 alphabet with `=` padding; the contract states that encoding.
#[verifier::external_body]
fn base64_standard(bytes: &[u8]) -> (r: String)
    ensures
        r@ == base64_encode(bytes@),
{
    base64::Engine::encode(&base64::engine::general_purpose::STANDARD, bytes)
}

/// The JPEG file that the `image` crate writes for a `width` by `height`
/// RGBA image with pixel bytes `rgba` (its alpha channel dropped), or `None`
/// when it writes none.
pub uninterp spec fn jpeg_encoding(width: u32, height: u32, rgba: Seq<u8>) -> Option<Seq<u8>>;

/// `b` begins with the JPEG start-of-image marker `FF D8`.
pub open spec fn starts_with_soi(b: Seq<u8>) -> bool {
    b.len() >= 2 && b[0] == 0xFFu8 && b[1] == 0xD8u8
}

/// A `width` by `height` frame whose `len` RGBA bytes the JPEG encoder
/// accepts: both sides between 1 and 65535 pixels, and at least four bytes
/// for each pixel.
pub open spec fn jpeg_encodable(width: u32, height: u32, len: nat) -> bool {
    &&& 1 <= width <= 65535
    &&& 1 <= height <= 65535
    &&& len >= 4 * width * height
}

/// Encodes an RGBA frame as JPEG.
///
/// Builds an `image::RgbaImage` with `ImageBuffer::from_raw` (which gives
/// `None` when `rgba` holds fewer than `width * height * 4` bytes, or when that
/// product overflows) and writes it as `DynamicImage::ImageRgba8` with
/// `DynamicImage::write_to` in `ImageFormat::Jpeg`, which first converts the
/// pixels to RGB; the bytes are kept only when the write succeeds. The
/// contract names the outcome, claims that it depends on the three arguments
/// alone, that the JPEG encoder accepts exactly the frames whose sides lie in
/// 1..=65535 (it refuses others with an error, and writing into a vector
/// cannot fail), and that written bytes begin with the start-of-image marker
/// the encoder writes first.
#[verifier::external_body]
fn encode_jpeg(width: u32, height: u32, rgba: Vec<u8>) -> (r: Option<Vec<u8>>)
    ensures
        match r {
            Some(b) => jpeg_encoding(width, height, rgba@) == Some(b@) && starts_with_soi(b@),
            None => jpeg_encoding(width, height, rgba@) is None,
        },
        r is Some <==> jpeg_encodable(width, height, rgba@.len()),
{
    let frame = image::RgbaImage::from_raw(width, height, rgba)?;
    let mut buffer = std::io::Cursor::new(Vec::new());
    image::DynamicImage::ImageRgba8(frame).write_to(&mut buffer, image::ImageFormat::Jpeg).ok()?;
    Some(buffer.into_inner())
}

/// The text sent to the viewer for an encoded frame: its Base64 encoding.
pub fn frame_payload(jpeg: &Vec<u8>) -> (r: String)
    ensures
        r@ == base64_encode(jpeg@),
{
    base64_standard(jpeg.as_slice())
}

/// Encodes a captured RGBA frame into the Base64 JPEG text sent to the
/// viewer, or `None` when the frame could not be encoded (it is then skipped).
pub fn encode_frame(width: u32, height: u32, rgba: Vec<u8>) -> (r: Option<String>)
    ensures
        match jpeg_encoding(width, height, rgba@) {
            Some(b) => r is Some && r->0@ == base64_encode(b) && starts_with_soi(b),
            None => r is None,
        },
        r is Some <==> jpeg_encodable(width, height, rgba@.len()),
{
    match encode_jpeg(width, height, rgba) {
        Some(jpeg) => Some(frame_payload(&jpeg)),
        None => None,
    }
}

} // verus!
