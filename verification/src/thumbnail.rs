//! Thumbnail pixel processing: channel reordering, dominant colour, PNG
//! re-encoding and data-URL framing.

use base64::Engine;
use vstd::prelude::*;
use vstd::string::StringExecFns;

verus! {

/// Decoded thumbnail pixel data: the oriented width and height in pixels and
/// the bytes of the pixels, four per pixel in the order blue, green, red,
/// alpha.
#[derive(Debug)]
pub struct Thumbnail {
    pub width: u32,
    pub height: u32,
    pub bgra: Vec<u8>,
}

/// Why a thumbnail that is present could not be rendered.
#[derive(Debug, Clone, Copy, PartialEq, Eq, Structural)]
pub enum ThumbnailError {
    /// The pixel data ends in the middle of a pixel.
    PartialPixel,
    /// The pixel data holds no pixel.
    NoPixels,
    /// The pixel data does not hold exactly width times height pixels.
    SizeMismatch,
    /// The PNG encoder reported an error.
    EncodingFailed,
    /// The encoded image is too large for a data URL in memory.
    TooLarge,
}

/// Channel `channel` (0 to 3) of pixel number `pixel` in a buffer that holds
/// four bytes for every pixel.
pub open spec fn channel_at(pixels: Seq<u8>, pixel: int, channel: int) -> u8 {
    pixels[4 * pixel + channel]
}

/// Position in a BGRA buffer of the byte that lands at position `i` of the
/// RGBA buffer: the first and third byte of every 4-byte group trade places.
pub open spec fn bgra_source_index(i: int) -> int {
    if i % 4 == 0 {
        i + 2
    } else if i % 4 == 2 {
        i - 2
    } else {
        i
    }
}

/// The RGBA rendering of a BGRA byte sequence made of whole 4-byte groups.
pub open spec fn rgba_of_bgra(bgra: Seq<u8>) -> Seq<u8> {
    Seq::new(bgra.len(), |i: int| bgra[bgra_source_index(i)])
}

/// Reorders BGRA pixel data into RGBA: every group `[b, g, r, a]` becomes
/// `[r, g, b, a]`.
pub fn bgra_to_rgba(bgra: &Vec<u8>) -> (rgba: Vec<u8>)
    requires
        bgra@.len() % 4 == 0,
    ensures
        rgba@ == rgba_of_bgra(bgra@),
        rgba@.len() == bgra@.len(),
        forall|p: int|
            0 <= p < bgra@.len() / 4 ==> {
                &&& #[trigger] channel_at(rgba@, p, 0) == channel_at(bgra@, p, 2)
                &&& channel_at(rgba@, p, 1) == channel_at(bgra@, p, 1)
                &&& channel_at(rgba@, p, 2) == channel_at(bgra@, p, 0)
                &&& channel_at(rgba@, p, 3) == channel_at(bgra@, p, 3)
            },
{
    let mut rgba: Vec<u8> = Vec::with_capacity(bgra.len());
    let mut i: usize = 0;
    while i < bgra.len()
        invariant
            bgra@.len() % 4 == 0,
            i % 4 == 0,
            i <= bgra@.len(),
            rgba@.len() == i,
            forall|k: int| 0 <= k < i ==> rgba@[k] == bgra@[bgra_source_index(k)],
        decreases bgra@.len() - i,
    {
        rgba.push(bgra[i + 2]);
        rgba.push(bgra[i + 1]);
        rgba.push(bgra[i]);
        rgba.push(bgra[i + 3]);
        i = i + 4;
    }
    assert(rgba@ =~= rgba_of_bgra(bgra@));
    rgba
}

/// A single pixel `[b, g, r, a]` becomes `[r, g, b, a]`.
pub proof fn lemma_pixel_swap(b: u8, g: u8, r: u8, a: u8)
    ensures
        rgba_of_bgra(seq![b, g, r, a]) == seq![r, g, b, a],
{
    assert(rgba_of_bgra(seq![b, g, r, a]) =~= seq![r, g, b, a]);
}

/// Number of whole pixels in a buffer of four bytes per pixel.
pub open spec fn pixel_count(pixels: Seq<u8>) -> nat {
    pixels.len() / 4
}

/// Sum of one channel over the first `count` pixels.
pub open spec fn channel_total(pixels: Seq<u8>, channel: int, count: nat) -> nat
    decreases count,
{
    if count == 0 {
        0
    } else {
        channel_total(pixels, channel, (count - 1) as nat) + channel_at(
            pixels,
            count - 1,
            channel,
        ) as nat
    }
}

/// Arithmetic mean of one channel over all pixels, rounded down.
pub open spec fn channel_mean(pixels: Seq<u8>, channel: int) -> nat {
    channel_total(pixels, channel, pixel_count(pixels)) / pixel_count(pixels)
}

/// The dominant colour of an RGBA buffer: the mean of the red, green and blue
/// channels over all pixels. Alpha takes no part.
pub open spec fn dominant_color_of(rgba: Seq<u8>) -> Seq<u8> {
    seq![
        channel_mean(rgba, 0) as u8,
        channel_mean(rgba, 1) as u8,
        channel_mean(rgba, 2) as u8,
    ]
}

/// A channel total never exceeds 255 per pixel.
pub proof fn lemma_channel_total_bound(pixels: Seq<u8>, channel: int, count: nat)
    ensures
        channel_total(pixels, channel, count) <= 255 * count,
    decreases count,
{
    if count > 0 {
        lemma_channel_total_bound(pixels, channel, (count - 1) as nat);
    }
}

/// A channel mean is a byte.
pub proof fn lemma_channel_mean_is_byte(pixels: Seq<u8>, channel: int)
    requires
        pixel_count(pixels) > 0,
    ensures
        channel_mean(pixels, channel) <= 255,
{
    let n = pixel_count(pixels);
    let total = channel_total(pixels, channel, n);
    lemma_channel_total_bound(pixels, channel, n);
    assert(total / n <= 255) by (nonlinear_arith)
        requires
            total <= 255 * n,
            n > 0,
    ;
}

/// Where every pixel has the same value in a channel, the channel's total
/// is that value times the number of pixels.
proof fn lemma_uniform_channel_total(pixels: Seq<u8>, channel: int, value: u8, count: nat)
    requires
        forall|p: int| 0 <= p < count ==> #[trigger] channel_at(pixels, p, channel) == value,
    ensures
        channel_total(pixels, channel, count) == value * count,
    decreases count,
{
    if count > 0 {
        lemma_uniform_channel_total(pixels, channel, value, (count - 1) as nat);
        assert(channel_at(pixels, count - 1, channel) == value);
        assert(value * (count - 1) + value == value * count) by (nonlinear_arith);
    } else {
        assert(value * count == 0) by (nonlinear_arith)
            requires
                count == 0,
        ;
    }
}

/// An image of one colour has that colour as its dominant colour: where
/// every pixel of a BGRA buffer is `[b, g, r, a]`, the dominant colour of its
/// RGBA rendering is `[r, g, b]`.
pub proof fn lemma_uniform_image_color(bgra: Seq<u8>, b: u8, g: u8, r: u8, a: u8)
    requires
        bgra.len() % 4 == 0,
        bgra.len() > 0,
        forall|p: int|
            0 <= p < bgra.len() / 4 ==> {
                &&& #[trigger] channel_at(bgra, p, 0) == b
                &&& channel_at(bgra, p, 1) == g
                &&& channel_at(bgra, p, 2) == r
                &&& channel_at(bgra, p, 3) == a
            },
    ensures
        dominant_color_of(rgba_of_bgra(bgra)) == seq![r, g, b],
{
    let rgba = rgba_of_bgra(bgra);
    let n = pixel_count(rgba);
    assert forall|p: int| 0 <= p < n implies #[trigger] channel_at(rgba, p, 0) == r by {
        assert(channel_at(bgra, p, 0) == b);
        assert(rgba[4 * p] == bgra[bgra_source_index(4 * p)]);
    }
    assert forall|p: int| 0 <= p < n implies #[trigger] channel_at(rgba, p, 1) == g by {
        assert(channel_at(bgra, p, 0) == b);
        assert(rgba[4 * p + 1] == bgra[bgra_source_index(4 * p + 1)]);
    }
    assert forall|p: int| 0 <= p < n implies #[trigger] channel_at(rgba, p, 2) == b by {
        assert(channel_at(bgra, p, 0) == b);
        assert(rgba[4 * p + 2] == bgra[bgra_source_index(4 * p + 2)]);
    }
    lemma_uniform_channel_total(rgba, 0, r, n);
    lemma_uniform_channel_total(rgba, 1, g, n);
    lemma_uniform_channel_total(rgba, 2, b, n);
    let total_r = channel_total(rgba, 0, n);
    assert(total_r / n == r) by (nonlinear_arith)
        requires
            total_r == r * n,
            n > 0,
    ;
    let total_g = channel_total(rgba, 1, n);
    assert(total_g / n == g) by (nonlinear_arith)
        requires
            total_g == g * n,
            n > 0,
    ;
    let total_b = channel_total(rgba, 2, n);
    assert(total_b / n == b) by (nonlinear_arith)
        requires
            total_b == b * n,
            n > 0,
    ;
    assert(dominant_color_of(rgba) =~= seq![r, g, b]);
}

/// Computes the dominant colour of RGBA pixel data as three bytes
/// `[r, g, b]`, each the rounded-down mean of its channel.
pub fn dominant_color(rgba: &Vec<u8>) -> (color: Vec<u8>)
    requires
        rgba@.len() % 4 == 0,
        rgba@.len() > 0,
    ensures
        color@ == dominant_color_of(rgba@),
        color@.len() == 3,
{
    let count: usize = rgba.len() / 4;
    let mut r: u128 = 0;
    let mut g: u128 = 0;
    let mut b: u128 = 0;
    let mut p: usize = 0;
    while p < count
        invariant
            count == pixel_count(rgba@),
            4 * count == rgba@.len(),
            4 * count <= usize::MAX,
            p <= count,
            r == channel_total(rgba@, 0, p as nat),
            g == channel_total(rgba@, 1, p as nat),
            b == channel_total(rgba@, 2, p as nat),
        decreases count - p,
    {
        proof {
            lemma_channel_total_bound(rgba@, 0, p as nat);
            lemma_channel_total_bound(rgba@, 1, p as nat);
            lemma_channel_total_bound(rgba@, 2, p as nat);
        }
        r = r + rgba[4 * p] as u128;
        g = g + rgba[4 * p + 1] as u128;
        b = b + rgba[4 * p + 2] as u128;
        p = p + 1;
    }
    proof {
        lemma_channel_mean_is_byte(rgba@, 0);
        lemma_channel_mean_is_byte(rgba@, 1);
        lemma_channel_mean_is_byte(rgba@, 2);
    }
    let n: u128 = count as u128;
    let color = vec![(r / n) as u8, (g / n) as u8, (b / n) as u8];
    assert(color@ =~= dominant_color_of(rgba@));
    color
}

/// The PNG file that the `image` crate writes for an 8-bit RGBA image of the
/// given size and pixel bytes, or `None` where its encoder reports an error.
pub uninterp spec fn png_encoding(width: u32, height: u32, rgba: Seq<u8>) -> Option<Seq<u8>>;

/// The text that the `base64` crate's standard engine (standard alphabet,
/// with padding) gives for a byte string.
pub uninterp spec fn base64_text(bytes: Seq<u8>) -> Seq<char>;

/// Whether the base64 text of `len` bytes, four characters for every three
/// bytes begun, fits in one allocation.
pub open spec fn fits_base64(len: nat) -> bool {
    (len / 3 + 1) * 4 <= isize::MAX
}

/// The data URL that carries a PNG file.
pub open spec fn data_url_of(png: Seq<u8>) -> Seq<char> {
    "data:image/png;base64,"@ + base64_text(png)
}

/// Calls `image::RgbaImage::from_vec` and `image::DynamicImage::write_to`
/// with `image::ImageFormat::Png` on an in-memory buffer. Trusted: the bytes
/// written are a function of the size and the pixel bytes alone, and `None`
/// stands for an error of the encoder. The buffer must hold exactly four bytes
/// per pixel, else the image is not built or the encoder's length check
/// panics.
#[verifier::external_body]
fn encode_png(width: u32, height: u32, rgba: Vec<u8>) -> (png: Option<Vec<u8>>)
    requires
        rgba@.len() == 4 * (width * height),
    ensures
        png_encoding(width, height, rgba@) == match png {
            Some(bytes) => Some(bytes@),
            None => None,
        },
{
    let img = image::RgbaImage::from_vec(width, height, rgba)?;
    let mut buf = std::io::Cursor::new(Vec::new());
    image::DynamicImage::ImageRgba8(img).write_to(&mut buf, image::ImageFormat::Png).ok()?;
    Some(buf.into_inner())
}

/// Calls `base64::Engine::encode` on `base64::engine::general_purpose::STANDARD`.
/// Trusted: the text is a function of the bytes alone. The text must fit in
/// one allocation, else the engine panics when it sizes or allocates its
/// buffer.
#[verifier::external_body]
fn base64_encode(bytes: &Vec<u8>) -> (text: String)
    requires
        fits_base64(bytes@.len()),
    ensures
        text@ == base64_text(bytes@),
{
    base64::engine::general_purpose::STANDARD.encode(bytes)
}

/// Puts the data-URL header for a PNG image in front of base64 text.
pub fn data_url_with_payload(payload: &str) -> (url: String)
    ensures
        url@ == "data:image/png;base64,"@ + payload@,
{
    let mut url = String::from_str("data:image/png;base64,");
    url.append(payload);
    url
}

/// Frames a PNG file as a data URL, or gives `None` where the file is too
/// large for its base64 text to be held in memory.
pub fn png_data_url(png: &Vec<u8>) -> (url: Option<String>)
    ensures
        match url {
            Some(text) => fits_base64(png@.len()) && text@ == data_url_of(png@),
            None => !fits_base64(png@.len()),
        },
{
    if png.len() / 3 >= (isize::MAX as usize) / 4 {
        return None;
    }
    let text = base64_encode(png);
    Some(data_url_with_payload(text.as_str()))
}

/// What becomes of a thumbnail once the encoder has answered: the data URL
/// of the encoded file together with the dominant colour, or the reason why
/// there is none.
pub open spec fn thumbnail_outcome(encoded: Option<Seq<u8>>, color: Seq<u8>) -> Result<
    (Seq<char>, Seq<u8>),
    ThumbnailError,
> {
    match encoded {
        None => Err(ThumbnailError::EncodingFailed),
        Some(png) => if fits_base64(png.len()) {
            Ok((data_url_of(png), color))
        } else {
            Err(ThumbnailError::TooLarge)
        },
    }
}

/// Whether an executable thumbnail result is the one that the model gives.
pub open spec fn outcome_matches(
    out: Result<(String, Vec<u8>), ThumbnailError>,
    model: Result<(Seq<char>, Seq<u8>), ThumbnailError>,
) -> bool {
    match (out, model) {
        (Ok((url, color)), Ok((model_url, model_color))) => url@ == model_url && color@
            == model_color,
        (Err(e), Err(model_e)) => e == model_e,
        _ => false,
    }
}

/// Completes a thumbnail from the encoder's answer and the dominant colour.
pub fn finish_thumbnail(encoded: Option<Vec<u8>>, color: Vec<u8>) -> (out: Result<
    (String, Vec<u8>),
    ThumbnailError,
>)
    ensures
        outcome_matches(
            out,
            thumbnail_outcome(
                match encoded {
                    Some(png) => Some(png@),
                    None => None,
                },
                color@,
            ),
        ),
{
    match encoded {
        None => Err(ThumbnailError::EncodingFailed),
        Some(png) => match png_data_url(&png) {
            Some(url) => Ok((url, color)),
            None => Err(ThumbnailError::TooLarge),
        },
    }
}

impl Thumbnail {
    /// The first defect of the pixel data, if it has one.
    pub open spec fn defect(&self) -> Option<ThumbnailError> {
        if self.bgra@.len() % 4 != 0 {
            Some(ThumbnailError::PartialPixel)
        } else if self.bgra@.len() == 0 {
            Some(ThumbnailError::NoPixels)
        } else if self.bgra@.len() != 4 * (self.width * self.height) {
            Some(ThumbnailError::SizeMismatch)
        } else {
            None
        }
    }

    /// The pixel data is sound: whole pixels, at least one, and exactly as
    /// many as the size asks for.
    pub open spec fn well_formed(&self) -> bool {
        self.defect() is None
    }

    /// The data URL and dominant colour of this thumbnail, or the reason why
    /// it cannot be rendered.
    pub open spec fn rendered(&self) -> Result<(Seq<char>, Seq<u8>), ThumbnailError> {
        match self.defect() {
            Some(e) => Err(e),
            None => thumbnail_outcome(
                png_encoding(self.width, self.height, rgba_of_bgra(self.bgra@)),
                dominant_color_of(rgba_of_bgra(self.bgra@)),
            ),
        }
    }

    /// Checks the pixel data for defects.
    pub fn check(&self) -> (out: Option<ThumbnailError>)
        ensures
            out == self.defect(),
    {
        let len = self.bgra.len();
        if len % 4 != 0 {
            return Some(ThumbnailError::PartialPixel);
        }
        if len == 0 {
            return Some(ThumbnailError::NoPixels);
        }
        let w: u128 = self.width as u128;
        let h: u128 = self.height as u128;
        assert(w * h <= 0xffff_ffff * 0xffff_ffff) by (nonlinear_arith)
            requires
                w <= 0xffff_ffff,
                h <= 0xffff_ffff,
        ;
        if len as u128 != 4 * (w * h) {
            return Some(ThumbnailError::SizeMismatch);
        }
        None
    }

    /// Renders the thumbnail: swaps the pixels to RGBA, takes their dominant
    /// colour, encodes them as PNG and frames the file as a data URL.
    pub fn render(&self) -> (out: Result<(String, Vec<u8>), ThumbnailError>)
        ensures
            outcome_matches(out, self.rendered()),
    {
        if let Some(e) = self.check() {
            return Err(e);
        }
        let rgba = bgra_to_rgba(&self.bgra);
        let color = dominant_color(&rgba);
        let encoded = encode_png(self.width, self.height, rgba);
        finish_thumbnail(encoded, color)
    }
}

/// A thumbnail that renders has a colour of three bytes.
pub proof fn lemma_rendered_color_has_three_bytes(thumbnail: Option<Thumbnail>)
    ensures
        match thumbnail {
            Some(t) => match t.rendered() {
                Ok((_, color)) => color.len() == 3,
                Err(_) => true,
            },
            None => true,
        },
{
}

} // verus!
