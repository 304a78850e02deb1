//! Captured camera frames and their journey to the outbound queue: a
//! raw RGB pixel buffer is PNG-encoded, wrapped into a base64 data URI,
//! and framed as the JSON image payload the server recognizes.
//!
//! PNG encoding and base64 encoding are the work of the `image` and
//! `base64` crates, behind one trusted item each; their results are
//! named, and everything assembled from them is verified.

use std::collections::VecDeque;

use vstd::prelude::*;

verus! {

/// A raw decoded camera frame (tightly packed RGB, 8 bits per channel)
/// plus its capture sequence index.  Frames are consumed in strict
/// first-in first-out order and never duplicated.
#[derive(Debug)]
pub struct CapturedImage {
    pub width: u32,
    pub height: u32,
    pub pixels: Vec<u8>,
    pub index: u64,
}

/// Mathematical value of a `CapturedImage`.
pub struct CapturedImageView {
    pub width: u32,
    pub height: u32,
    pub pixels: Seq<u8>,
    pub index: u64,
}

impl View for CapturedImage {
    type V = CapturedImageView;

    open spec fn view(&self) -> CapturedImageView {
        CapturedImageView {
            width: self.width,
            height: self.height,
            pixels: self.pixels@,
            index: self.index,
        }
    }
}

/// A frame is well formed when both dimensions are positive and the
/// buffer holds exactly three bytes per pixel.
pub open spec fn image_wf(iv: CapturedImageView) -> bool {
    &&& 1 <= iv.width
    &&& 1 <= iv.height
    &&& iv.pixels.len() == 3 * iv.width * iv.height
}

/// The PNG encoding of a tightly packed RGB pixel buffer.
pub uninterp spec fn png_bytes_of(width: nat, height: nat, pixels: Seq<u8>) -> Seq<u8>;

/// Relies on `image::ImageBuffer::write_to` with the PNG format (and on
/// `ImageBuffer::from_raw` to wrap the buffer): the PNG encoding of the
/// frame.  The encoder depends on its input alone; dimensions are
/// positive and the buffer length exact, so neither call fails.
#[verifier::external_body]
fn png_encode(width: u32, height: u32, pixels: &Vec<u8>) -> (r: Vec<u8>)
    requires
        1 <= width,
        1 <= height,
        pixels@.len() == 3 * width * height,
    ensures
        r@ == png_bytes_of(width as nat, height as nat, pixels@),
{
    let img: image::RgbImage =
        image::RgbImage::from_raw(width, height, pixels.clone()).expect("buffer length matches");
    let mut buf: Vec<u8> = Vec::new();
    img.write_to(&mut std::io::Cursor::new(&mut buf), image::ImageOutputFormat::Png)
        .expect("encoding to memory");
    buf
}

/// The standard padded base64 encoding of a byte run.
pub uninterp spec fn base64_of(bytes: Seq<u8>) -> Seq<char>;

/// Relies on base64's `Engine::encode` with the standard padded
/// alphabet: the base64 form of the bytes, four characters for every
/// three bytes begun.  `encode` panics when that output length
/// overflows, which the length bound rules out.
#[verifier::external_body]
fn base64_encode(bytes: &Vec<u8>) -> (r: String)
    requires
        bytes@.len() <= usize::MAX / 2,
    ensures
        r@ == base64_of(bytes@),
        r@.len() == 4 * ((bytes@.len() + 2) / 3),
{
    base64::Engine::encode(&base64::engine::general_purpose::STANDARD, bytes)
}

/// The PNG encoding of the frame.
pub open spec fn image_png(iv: CapturedImageView) -> Seq<u8> {
    png_bytes_of(iv.width as nat, iv.height as nat, iv.pixels)
}

/// Whether the frame's PNG encoding is small enough to base64-encode
/// without overflowing; in practice every camera frame is.
pub open spec fn png_fits(iv: CapturedImageView) -> bool {
    image_png(iv).len() <= usize::MAX / 2
}

/// The base64 data URI embedding the frame's PNG encoding.
pub open spec fn data_uri_of(iv: CapturedImageView) -> Seq<char> {
    "data:image/png;base64,"@ + base64_of(image_png(iv))
}

/// The serialized JSON payload that carries one captured frame to the
/// server.  The data URI is drawn from the base64 alphabet, so the
/// envelope needs no escaping.
pub open spec fn image_payload_of(iv: CapturedImageView) -> Seq<char> {
    "{\"role\":\"user\",\"type\":\"image\",\"format\":\"base64.png\",\"content\":\""@
        + data_uri_of(iv) + "\"}"@
}

/// Encode one frame into its base64 data URI.  Returns nothing only
/// when the PNG encoding is too large to base64-encode, which a real
/// frame never is.
pub fn encode_image_to_base64(image: &CapturedImage) -> (r: Option<String>)
    requires
        image_wf(image@),
    ensures
        match r {
            Some(s) => png_fits(image@) && s@ == data_uri_of(image@),
            None => !png_fits(image@),
        },
{
    let png = png_encode(image.width, image.height, &image.pixels);
    if png.len() <= usize::MAX / 2 {
        let b64 = base64_encode(&png);
        let mut uri: String = "data:image/png;base64,".to_owned();
        uri.append(b64.as_str());
        Some(uri)
    } else {
        None
    }
}

/// Build the JSON image payload for one frame, when it encodes.
pub fn image_payload(image: &CapturedImage) -> (r: Option<String>)
    requires
        image_wf(image@),
    ensures
        match r {
            Some(s) => png_fits(image@) && s@ == image_payload_of(image@),
            None => !png_fits(image@),
        },
{
    match encode_image_to_base64(image) {
        Some(uri) => {
            let mut payload: String =
                "{\"role\":\"user\",\"type\":\"image\",\"format\":\"base64.png\",\"content\":\""
                .to_owned();
            payload.append(uri.as_str());
            payload.append("\"}");
            Some(payload)
        },
        None => None,
    }
}

/// Ordered queue of captured frames awaiting transmission, drained in
/// strict first-in first-out order.
#[derive(Debug)]
pub struct CaptureImageQueue {
    pub images: VecDeque<CapturedImage>,
}

impl View for CaptureImageQueue {
    type V = Seq<CapturedImageView>;

    open spec fn view(&self) -> Seq<CapturedImageView> {
        Seq::new(self.images@.len(), |i: int| self.images@[i]@)
    }
}

impl CaptureImageQueue {
    /// A fresh, empty queue.
    pub fn new() -> (r: CaptureImageQueue)
        ensures
            r@ == Seq::<CapturedImageView>::empty(),
    {
        let q = CaptureImageQueue { images: VecDeque::new() };
        proof {
            assert(q@ =~= Seq::<CapturedImageView>::empty());
        }
        q
    }

    /// How many frames wait.
    pub fn len(&self) -> (r: usize)
        ensures
            r == self@.len(),
    {
        self.images.len()
    }

    /// Append a freshly captured frame.
    pub fn push_back(&mut self, image: CapturedImage)
        ensures
            final(self)@ == old(self)@.push(image@),
    {
        let ghost iv = image@;
        self.images.push_back(image);
        proof {
            assert(final(self)@ =~= old(self)@.push(iv));
        }
    }

    /// Take the oldest frame, if any.
    pub fn pop_front(&mut self) -> (r: Option<CapturedImage>)
        ensures
            old(self)@.len() == 0 ==> r is None && final(self)@ == old(self)@,
            old(self)@.len() > 0 ==> match r {
                Some(image) => image@ == old(self)@.first() && final(self)@ == old(
                    self,
                )@.drop_first(),
                None => false,
            },
    {
        let r = self.images.pop_front();
        proof {
            if old(self)@.len() == 0 {
                assert(final(self)@ =~= old(self)@);
            } else {
                assert(final(self)@ =~= old(self)@.drop_first());
            }
        }
        r
    }
}

} // verus!
