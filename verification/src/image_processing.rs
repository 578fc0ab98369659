//! The codec adapter: decoded images as plain pixels, and the steps around
//! the codecs that can be stated exactly.

use vstd::prelude::*;

verus! {

/// What can go wrong while an image is decoded or encoded.
#[derive(Debug, Clone, PartialEq, Eq)]
pub enum ImageError {
    /// The general-purpose codec library refused the data.
    Image { category: String, message: String },
    /// Palette reduction failed.
    ImageQuant { category: String, message: String },
    /// The AVIF decoder refused the data.
    AvifDecode { category: String, message: String },
    /// The PNG encoder failed.
    LodePNG { category: String, message: String },
    /// The JPEG encoder failed.
    Mozjpeg,
    /// Reading or writing failed.
    Io { message: String },
    /// The data had a shape that no step can handle.
    Unknown,
}

/// The text that introduces every codec failure.
pub open spec fn fail_prefix() -> Seq<char> {
    "Handle image fail, category:"@
}

/// The text of a codec failure of the given category and cause.
pub open spec fn fail_text(category: Seq<char>, message: Seq<char>) -> Seq<char> {
    fail_prefix() + category + ", message:"@ + message
}

impl ImageError {
    /// The human-readable text of the error.
    pub open spec fn text(&self) -> Seq<char> {
        match self {
            ImageError::Image { category, message } => fail_text(category@, message@),
            ImageError::ImageQuant { category, message } => fail_text(category@, message@),
            ImageError::AvifDecode { category, message } => fail_text(category@, message@),
            ImageError::LodePNG { category, message } => fail_text(category@, message@),
            ImageError::Mozjpeg => fail_text("mozjpeg"@, "unknown"@),
            ImageError::Io { message } => "Io fail, "@ + message@,
            ImageError::Unknown => "Handle image fail"@,
        }
    }

    /// Renders the error as text.
    pub fn to_text(&self) -> (out: String)
        ensures
            out@ == self.text(),
    {
        match self {
            ImageError::Image { category, message } => render_fail(
                category.as_str(),
                message.as_str(),
            ),
            ImageError::ImageQuant { category, message } => render_fail(
                category.as_str(),
                message.as_str(),
            ),
            ImageError::AvifDecode { category, message } => render_fail(
                category.as_str(),
                message.as_str(),
            ),
            ImageError::LodePNG { category, message } => render_fail(
                category.as_str(),
                message.as_str(),
            ),
            ImageError::Mozjpeg => render_fail("mozjpeg", "unknown"),
            ImageError::Io { message } => {
                let mut out = "Io fail, ".to_owned();
                out.append(message.as_str());
                out
            },
            ImageError::Unknown => "Handle image fail".to_owned(),
        }
    }
}

fn render_fail(category: &str, message: &str) -> (out: String)
    ensures
        out@ == fail_text(category@, message@),
{
    let mut out = "Handle image fail, category:".to_owned();
    out.append(category);
    out.append(", message:");
    out.append(message);
    out
}

/// One pixel with alpha: four 8-bit channels, not premultiplied.
#[derive(Clone, Copy, Debug, PartialEq, Eq, Structural)]
pub struct Rgba8 {
    pub r: u8,
    pub g: u8,
    pub b: u8,
    pub a: u8,
}

/// One opaque pixel: three 8-bit channels.
#[derive(Clone, Copy, Debug, PartialEq, Eq, Structural)]
pub struct Rgb8 {
    pub r: u8,
    pub g: u8,
    pub b: u8,
}

impl Rgba8 {
    /// The pixel without its alpha channel.
    pub open spec fn opaque(self) -> Rgb8 {
        Rgb8 { r: self.r, g: self.g, b: self.b }
    }

    /// Drops the alpha channel.
    pub fn rgb(&self) -> (p: Rgb8)
        ensures
            p == self.opaque(),
    {
        Rgb8 { r: self.r, g: self.g, b: self.b }
    }
}

/// The pixel that the four bytes at `4 * i` in `raw` spell.
pub open spec fn pixel_at(raw: Seq<u8>, i: int) -> Rgba8 {
    Rgba8 { r: raw[4 * i], g: raw[4 * i + 1], b: raw[4 * i + 2], a: raw[4 * i + 3] }
}

/// The byte at `k` of the packed RGBA form of `pixels`.
pub open spec fn rgba_byte(pixels: Seq<Rgba8>, k: int) -> u8 {
    let p = pixels[k / 4];
    if k % 4 == 0 {
        p.r
    } else if k % 4 == 1 {
        p.g
    } else if k % 4 == 2 {
        p.b
    } else {
        p.a
    }
}

/// The byte at `k` of the packed RGB form of `pixels`.
pub open spec fn rgb_byte(pixels: Seq<Rgb8>, k: int) -> u8 {
    let p = pixels[k / 3];
    if k % 3 == 0 {
        p.r
    } else if k % 3 == 1 {
        p.g
    } else {
        p.b
    }
}

/// The pixels of `pixels`, four bytes each, in order.
pub open spec fn packed_rgba(pixels: Seq<Rgba8>) -> Seq<u8> {
    Seq::new(4 * pixels.len(), |k: int| rgba_byte(pixels, k))
}

/// The pixels of `pixels`, three bytes each, in order.
pub open spec fn packed_rgb(pixels: Seq<Rgb8>) -> Seq<u8> {
    Seq::new(3 * pixels.len(), |k: int| rgb_byte(pixels, k))
}

/// A decoded image: RGBA pixels in row-major order.
#[derive(Debug, Clone, PartialEq, Eq)]
pub struct ImageInfo {
    pub buffer: Vec<Rgba8>,
    /// Width in pixels
    pub width: usize,
    /// Height in pixels
    pub height: usize,
}

impl ImageInfo {
    /// The image holds exactly one pixel per position, and its sides fit the
    /// 32-bit sizes that the codecs take.
    pub open spec fn wf(&self) -> bool {
        &&& self.buffer@.len() == self.width * self.height
        &&& self.width <= u32::MAX
        &&& self.height <= u32::MAX
    }

    /// Whether the image is well-formed.
    pub fn is_wf(&self) -> (ok: bool)
        ensures
            ok == self.wf(),
    {
        if self.width > u32::MAX as usize || self.height > u32::MAX as usize {
            return false;
        }
        assert(self.width * self.height <= u64::MAX) by (nonlinear_arith)
            requires
                self.width <= u32::MAX,
                self.height <= u32::MAX,
        ;
        self.buffer.len() as u64 == self.width as u64 * self.height as u64
    }

    /// Whether `raw` has the length of a packed `width` by `height` image.
    pub open spec fn raw_fits(width: u32, height: u32, raw: Seq<u8>) -> bool {
        raw.len() == 4 * (width * height)
    }

    /// Builds an image from packed RGBA bytes, four per pixel. `None` where
    /// the byte count is not that of a `width` by `height` image.
    pub fn from_raw(width: u32, height: u32, raw: &[u8]) -> (out: Option<ImageInfo>)
        ensures
            out is Some <==> Self::raw_fits(width, height, raw@),
            out is Some ==> {
                let img = out->0;
                &&& img.wf()
                &&& img.width == width
                &&& img.height == height
                &&& forall|i: int|
                    0 <= i < img.buffer@.len() ==> #[trigger] img.buffer@[i] == pixel_at(raw@, i)
            },
    {
        assert(width * height <= u64::MAX) by (nonlinear_arith)
            requires
                width <= u32::MAX,
                height <= u32::MAX,
        ;
        let count: u64 = width as u64 * height as u64;
        let len = raw.len();
        if count > (usize::MAX / 4) as u64 {
            return None;
        }
        let n: usize = count as usize;
        if len != 4 * n {
            return None;
        }
        let mut buffer: Vec<Rgba8> = Vec::with_capacity(n);
        let mut i: usize = 0;
        while i < n
            invariant
                raw@.len() == 4 * n,
                4 * n <= usize::MAX,
                i <= n,
                buffer@.len() == i,
                forall|k: int| 0 <= k < i ==> #[trigger] buffer@[k] == pixel_at(raw@, k),
            decreases n - i,
        {
            buffer.push(
                Rgba8 { r: raw[4 * i], g: raw[4 * i + 1], b: raw[4 * i + 2], a: raw[4 * i + 3] },
            );
            i = i + 1;
        }
        Some(ImageInfo { buffer, width: width as usize, height: height as usize })
    }

    /// The pixels without their alpha channel.
    pub fn get_rgb8(&self) -> (out: Vec<Rgb8>)
        ensures
            out@.len() == self.buffer@.len(),
            forall|i: int| 0 <= i < out@.len() ==> #[trigger] out@[i] == self.buffer@[i].opaque(),
    {
        let mut out: Vec<Rgb8> = Vec::with_capacity(self.buffer.len());
        let mut i: usize = 0;
        while i < self.buffer.len()
            invariant
                i <= self.buffer.len(),
                out@.len() == i,
                forall|k: int| 0 <= k < i ==> #[trigger] out@[k] == self.buffer@[k].opaque(),
            decreases self.buffer.len() - i,
        {
            out.push(self.buffer[i].rgb());
            i = i + 1;
        }
        out
    }
}

/// A decoded raster as the decoder hands it over: width, height and packed
/// RGBA bytes.
pub type Raster = (u32, u32, Seq<u8>);

/// What decoding `bytes` as the format of extension `hint` gives: nothing at
/// all where the extension names no format, else the raster, or nothing
/// where the data was refused.
pub uninterp spec fn decoded_rgba(bytes: Seq<u8>, hint: Seq<char>) -> Option<Option<Raster>>;

/// What encoding packed RGBA bytes as lossless WebP gives; nothing where
/// the encoder fails.
pub uninterp spec fn webp_lossless(data: Seq<u8>, width: u32, height: u32) -> Option<Seq<u8>>;

/// What encoding an indexed image as PNG gives; nothing where the encoder
/// fails.
pub uninterp spec fn png_encoded(
    palette: Seq<Rgba8>,
    pixels: Seq<u8>,
    width: usize,
    height: usize,
) -> Option<Seq<u8>>;

/// The raster that a decoding result holds, if it holds one.
pub open spec fn raster_of(r: Result<(u32, u32, Vec<u8>), String>) -> Option<Raster> {
    match r {
        Ok(t) => Some((t.0, t.1, t.2@)),
        Err(_) => None,
    }
}

/// The rasters of an optional decoding result.
pub open spec fn rasters_of(
    r: Option<Result<(u32, u32, Vec<u8>), String>>,
) -> Option<Option<Raster>> {
    match r {
        Some(inner) => Some(raster_of(inner)),
        None => None,
    }
}

/// The bytes that an encoding result holds, if it holds any.
pub open spec fn encoded_of<E>(r: Result<Vec<u8>, E>) -> Option<Seq<u8>> {
    match r {
        Ok(bytes) => Some(bytes@),
        Err(_) => None,
    }
}

/// Decodes `bytes` with `image::load`, in the format that
/// `image::ImageFormat::from_extension` finds for `hint`, and converts the
/// picture with `DynamicImage::to_rgba8`. `None` where the extension names
/// no format. The extensions `jpg` and `jpeg` name JPEG; of these the
/// contract states `jpeg`. A decoded picture comes with four bytes for each
/// of its `width * height` pixels. The outcome depends on the arguments
/// alone and is named by `decoded_rgba`. A refusal comes as the text of the
/// crate's error.
#[verifier::external_body]
pub(crate) fn decode_rgba(bytes: &[u8], hint: &str) -> (r: Option<
    Result<(u32, u32, Vec<u8>), String>,
>)
    ensures
        rasters_of(r) == decoded_rgba(bytes@, hint@),
        hint@ == "jpeg"@ ==> r is Some,
        r is Some && r->0 is Ok ==> r->0->Ok_0.2@.len() == 4 * (r->0->Ok_0.0 * r->0->Ok_0.1),
{
    match image::ImageFormat::from_extension(hint) {
        None => None,
        Some(format) => Some(
            match image::load(std::io::Cursor::new(bytes), format) {
                Ok(picture) => {
                    let rgba = picture.to_rgba8();
                    Ok((rgba.width(), rgba.height(), rgba.into_raw()))
                },
                Err(e) => Err(e.to_string()),
            },
        ),
    }
}

/// Encodes packed RGBA bytes with `image::codecs::webp::WebPEncoder`, made
/// by `new_with_quality` with `WebPQuality::lossless`: the crate's own
/// lossless encoder. It panics unless it gets four bytes per pixel, so
/// other input is left out; a side that it cannot take, zero or above
/// 16384, comes back as a failure. The outcome depends on the arguments
/// alone and is named by `webp_lossless`. A failure comes as the text of
/// the crate's error.
#[verifier::external_body]
#[allow(deprecated)]
pub(crate) fn webp_encode_lossless(data: &[u8], width: u32, height: u32) -> (r: Result<
    Vec<u8>,
    String,
>)
    requires
        data@.len() == 4 * (width * height),
    ensures
        encoded_of(r) == webp_lossless(data@, width, height),
{
    let mode = image::codecs::webp::WebPQuality::lossless();
    let mut out = Vec::new();
    let encoder = image::codecs::webp::WebPEncoder::new_with_quality(&mut out, mode);
    match encoder.encode(data, width, height, image::ColorType::Rgba8) {
        Ok(()) => Ok(out),
        Err(e) => Err(e.to_string()),
    }
}

/// Encodes an indexed image with `lodepng::Encoder`: `set_palette` with the
/// palette, then `encode` with one byte per pixel. A debug build of the
/// encoder panics unless it gets `width * height` bytes, so other input is
/// left out. The outcome depends on the arguments alone and is named by
/// `png_encoded`. A failure comes as the text of the crate's error.
#[verifier::external_body]
pub(crate) fn png_encode(palette: &Vec<Rgba8>, pixels: &[u8], width: usize, height: usize) -> (r:
    Result<Vec<u8>, String>)
    requires
        pixels@.len() == width * height,
    ensures
        encoded_of(r) == png_encoded(palette@, pixels@, width, height),
{
    let mut colors: Vec<lodepng::RGBA> = Vec::new();
    for p in palette.iter() {
        colors.push(lodepng::RGBA::new(p.r, p.g, p.b, p.a));
    }
    let mut encoder = lodepng::Encoder::new();
    let done = match encoder.set_palette(&colors) {
        Ok(()) => encoder.encode(pixels, width, height),
        Err(e) => Err(e),
    };
    match done {
        Ok(bytes) => Ok(bytes),
        Err(e) => Err(e.to_string()),
    }
}

/// Packs pixels into bytes, four per pixel.
pub fn pack_rgba(pixels: &Vec<Rgba8>) -> (out: Vec<u8>)
    ensures
        out@ == packed_rgba(pixels@),
{
    let n = pixels.len();
    let mut out: Vec<u8> = Vec::new();
    let mut i: usize = 0;
    while i < n
        invariant
            n == pixels@.len(),
            i <= n,
            out@.len() == 4 * i,
            forall|k: int| 0 <= k < 4 * i ==> #[trigger] out@[k] == rgba_byte(pixels@, k),
        decreases n - i,
    {
        let p = pixels[i];
        out.push(p.r);
        out.push(p.g);
        out.push(p.b);
        out.push(p.a);
        i = i + 1;
    }
    assert(out@ =~= packed_rgba(pixels@));
    out
}

/// Packs pixels into bytes, three per pixel.
pub fn pack_rgb(pixels: &Vec<Rgb8>) -> (out: Vec<u8>)
    ensures
        out@ == packed_rgb(pixels@),
{
    let n = pixels.len();
    let mut out: Vec<u8> = Vec::new();
    let mut i: usize = 0;
    while i < n
        invariant
            n == pixels@.len(),
            i <= n,
            out@.len() == 3 * i,
            forall|k: int| 0 <= k < 3 * i ==> #[trigger] out@[k] == rgb_byte(pixels@, k),
        decreases n - i,
    {
        let p = pixels[i];
        out.push(p.r);
        out.push(p.g);
        out.push(p.b);
        i = i + 1;
    }
    assert(out@ =~= packed_rgb(pixels@));
    out
}

/// One opaque pixel of 16-bit channels.
#[derive(Clone, Copy, Debug, PartialEq, Eq, Structural)]
pub struct Rgb16 {
    pub r: u16,
    pub g: u16,
    pub b: u16,
}

/// One pixel with alpha, of 16-bit channels.
#[derive(Clone, Copy, Debug, PartialEq, Eq, Structural)]
pub struct Rgba16 {
    pub r: u16,
    pub g: u16,
    pub b: u16,
    pub a: u16,
}

/// A 16-bit channel brought down to 8 bits: the quotient by 257, cut off,
/// not rounded.
pub open spec fn down8(c: u16) -> u8 {
    (c / 257) as u8
}

/// Brings a 16-bit channel down to 8 bits.
pub fn narrow(c: u16) -> (out: u8)
    ensures
        out == down8(c),
{
    (c / 257) as u8
}

impl Rgb16 {
    /// The pixel with every channel brought down to 8 bits.
    pub open spec fn down(self) -> Rgb8 {
        Rgb8 { r: down8(self.r), g: down8(self.g), b: down8(self.b) }
    }
}

impl Rgba16 {
    /// The pixel with every channel brought down to 8 bits.
    pub open spec fn down(self) -> Rgba8 {
        Rgba8 { r: down8(self.r), g: down8(self.g), b: down8(self.b), a: down8(self.a) }
    }
}

/// Brings every pixel down to 8-bit channels.
pub fn narrow_rgb(pixels: &Vec<Rgb16>) -> (out: Vec<Rgb8>)
    ensures
        out@ == pixels@.map_values(|p: Rgb16| p.down()),
{
    let mut out: Vec<Rgb8> = Vec::new();
    let mut i: usize = 0;
    while i < pixels.len()
        invariant
            i <= pixels.len(),
            out@.len() == i,
            forall|k: int| 0 <= k < i ==> #[trigger] out@[k] == pixels@[k].down(),
        decreases pixels.len() - i,
    {
        let p = pixels[i];
        out.push(Rgb8 { r: narrow(p.r), g: narrow(p.g), b: narrow(p.b) });
        i = i + 1;
    }
    assert(out@ =~= pixels@.map_values(|p: Rgb16| p.down()));
    out
}

/// Brings every pixel down to 8-bit channels.
pub fn narrow_rgba(pixels: &Vec<Rgba16>) -> (out: Vec<Rgba8>)
    ensures
        out@ == pixels@.map_values(|p: Rgba16| p.down()),
{
    let mut out: Vec<Rgba8> = Vec::new();
    let mut i: usize = 0;
    while i < pixels.len()
        invariant
            i <= pixels.len(),
            out@.len() == i,
            forall|k: int| 0 <= k < i ==> #[trigger] out@[k] == pixels@[k].down(),
        decreases pixels.len() - i,
    {
        let p = pixels[i];
        out.push(Rgba8 { r: narrow(p.r), g: narrow(p.g), b: narrow(p.b), a: narrow(p.a) });
        i = i + 1;
    }
    assert(out@ =~= pixels@.map_values(|p: Rgba16| p.down()));
    out
}

/// What an AVIF decoder hands over: the pixels in the depth and layout of
/// the file.
#[allow(inconsistent_fields)]
#[derive(Debug, Clone, PartialEq, Eq)]
pub enum AvifImage {
    Rgb8 { width: u32, height: u32, pixels: Vec<Rgb8> },
    Rgba8 { width: u32, height: u32, pixels: Vec<Rgba8> },
    Rgb16 { width: u32, height: u32, pixels: Vec<Rgb16> },
    Rgba16 { width: u32, height: u32, pixels: Vec<Rgba16> },
    Gray8 { width: u32, height: u32, pixels: Vec<u8> },
    Gray16 { width: u32, height: u32, pixels: Vec<u16> },
}

/// A decoded picture of 8-bit channels, packed.
#[derive(Debug, Clone, PartialEq, Eq)]
pub enum DecodedImage {
    /// Three bytes per pixel.
    Rgb8 { width: u32, height: u32, data: Vec<u8> },
    /// Four bytes per pixel.
    Rgba8 { width: u32, height: u32, data: Vec<u8> },
}

/// Whether `data` has the bytes of a `width` by `height` picture of the
/// given number of channels.
pub open spec fn covers(data: Seq<u8>, width: u32, height: u32, channels: int) -> bool {
    channels * (width * height) <= data.len()
}

/// Whether `r` is the 8-bit picture of the packed bytes `data`, with or
/// without alpha: that picture where the bytes cover its sides, the unknown
/// failure where they do not.
pub open spec fn decodes_to(
    r: Result<DecodedImage, ImageError>,
    alpha: bool,
    width: u32,
    height: u32,
    data: Seq<u8>,
) -> bool {
    if alpha {
        if covers(data, width, height, 4) {
            r is Ok && (r->Ok_0 matches DecodedImage::Rgba8 { width: w, height: h, data: d } && w
                == width && h == height && d@ == data)
        } else {
            r == Err::<DecodedImage, ImageError>(ImageError::Unknown)
        }
    } else {
        if covers(data, width, height, 3) {
            r is Ok && (r->Ok_0 matches DecodedImage::Rgb8 { width: w, height: h, data: d } && w
                == width && h == height && d@ == data)
        } else {
            r == Err::<DecodedImage, ImageError>(ImageError::Unknown)
        }
    }
}

/// Whether `data` has the bytes of a `width` by `height` picture of the
/// given number of channels.
fn has_room(data: &Vec<u8>, width: u32, height: u32, channels: u8) -> (ok: bool)
    requires
        channels == 3 || channels == 4,
    ensures
        ok == covers(data@, width, height, channels as int),
{
    assert(channels * (width * height) <= 4 * (0xffff_ffff * 0xffff_ffff)) by (nonlinear_arith)
        requires
            width <= 0xffff_ffff,
            height <= 0xffff_ffff,
            0 <= channels <= 4,
    ;
    assert(width * height <= 0xffff_ffff * 0xffff_ffff) by (nonlinear_arith)
        requires
            width <= 0xffff_ffff,
            height <= 0xffff_ffff,
    ;
    let area: u128 = width as u128 * height as u128;
    let need: u128 = channels as u128 * area;
    need <= data.len() as u128
}

/// Finishes a picture without alpha.
fn finish_rgb(width: u32, height: u32, data: Vec<u8>) -> (r: Result<DecodedImage, ImageError>)
    ensures
        decodes_to(r, false, width, height, data@),
{
    if has_room(&data, width, height, 3) {
        Ok(DecodedImage::Rgb8 { width, height, data })
    } else {
        Err(ImageError::Unknown)
    }
}

/// Finishes a picture with alpha.
fn finish_rgba(width: u32, height: u32, data: Vec<u8>) -> (r: Result<DecodedImage, ImageError>)
    ensures
        decodes_to(r, true, width, height, data@),
{
    if has_room(&data, width, height, 4) {
        Ok(DecodedImage::Rgba8 { width, height, data })
    } else {
        Err(ImageError::Unknown)
    }
}

/// Turns what an AVIF decoder handed over into a packed picture of 8-bit
/// channels, whatever the depth of the file: 16-bit channels are divided by
/// 257 and cut off. Pictures without color are not handled.
pub fn avif_decode(image: AvifImage) -> (r: Result<DecodedImage, ImageError>)
    ensures
        match image {
            AvifImage::Rgb8 { width, height, pixels } => decodes_to(
                r,
                false,
                width,
                height,
                packed_rgb(pixels@),
            ),
            AvifImage::Rgba8 { width, height, pixels } => decodes_to(
                r,
                true,
                width,
                height,
                packed_rgba(pixels@),
            ),
            AvifImage::Rgb16 { width, height, pixels } => decodes_to(
                r,
                false,
                width,
                height,
                packed_rgb(pixels@.map_values(|p: Rgb16| p.down())),
            ),
            AvifImage::Rgba16 { width, height, pixels } => decodes_to(
                r,
                true,
                width,
                height,
                packed_rgba(pixels@.map_values(|p: Rgba16| p.down())),
            ),
            _ => r == Err::<DecodedImage, ImageError>(ImageError::Unknown),
        },
{
    match image {
        AvifImage::Rgb8 { width, height, pixels } => finish_rgb(width, height, pack_rgb(&pixels)),
        AvifImage::Rgba8 { width, height, pixels } => finish_rgba(
            width,
            height,
            pack_rgba(&pixels),
        ),
        AvifImage::Rgb16 { width, height, pixels } => {
            let low = narrow_rgb(&pixels);
            finish_rgb(width, height, pack_rgb(&low))
        },
        AvifImage::Rgba16 { width, height, pixels } => {
            let low = narrow_rgba(&pixels);
            finish_rgba(width, height, pack_rgba(&low))
        },
        _ => Err(ImageError::Unknown),
    }
}

/// The raster that loading `bytes` under the extension `ext` decodes: that
/// of the format which the extension names, or of JPEG where it names none.
pub open spec fn loaded(bytes: Seq<u8>, ext: Seq<char>) -> Option<Raster> {
    match decoded_rgba(bytes, ext) {
        Some(r) => r,
        None => match decoded_rgba(bytes, "jpeg"@) {
            Some(r) => r,
            None => None,
        },
    }
}

/// Whether `img` is the image of the raster `raster`.
pub open spec fn shows(img: ImageInfo, raster: Raster) -> bool {
    &&& img.wf()
    &&& img.width == raster.0
    &&& img.height == raster.1
    &&& forall|i: int| 0 <= i < img.buffer@.len() ==> #[trigger] img.buffer@[i] == pixel_at(raster.2, i)
}

/// What encoding as WebP comes to.
#[derive(Debug, Clone, PartialEq, Eq)]
pub enum WebpStep {
    /// The lossless encoding.
    Encoded(Vec<u8>),
    /// The lossy encoder is due, at this quality.
    Lossy { quality: u8 },
}

/// The WebP mode for a quality: lossless at 100, else lossy at that quality.
pub open spec fn webp_mode_of(quality: u8) -> Option<u8> {
    if quality == 100 {
        None
    } else {
        Some(quality)
    }
}

/// The AVIF encoder speed for a requested speed: 3 in place of 0.
pub open spec fn avif_speed_of(speed: u8) -> u8 {
    if speed == 0 {
        3
    } else {
        speed
    }
}

/// Whether a file of extension `ext` goes to the AVIF decoder rather than
/// the general one: only where the extension is `avif`.
pub fn wants_avif_decoder(ext: &str) -> (avif: bool)
    ensures
        avif == (ext@ == "avif"@),
{
    crate::text::str_eq(ext, "avif")
}

/// The WebP mode for a quality: `None` for lossless, else the lossy quality.
pub fn webp_mode(quality: u8) -> (mode: Option<u8>)
    ensures
        mode == webp_mode_of(quality),
{
    if quality == 100 {
        None
    } else {
        Some(quality)
    }
}

/// The AVIF encoder speed for a requested speed.
pub fn avif_speed(speed: u8) -> (s: u8)
    ensures
        s == avif_speed_of(speed),
{
    if speed == 0 {
        3
    } else {
        speed
    }
}

/// The image that a decoder's outcome stands for; a refused decoding is a
/// failure of category `load`.
fn image_of(outcome: Result<(u32, u32, Vec<u8>), String>) -> (r: Result<
    ImageInfo,
    ImageError,
>)
    requires
        outcome is Ok ==> outcome->Ok_0.2@.len() == 4 * (outcome->Ok_0.0 * outcome->Ok_0.1),
    ensures
        match raster_of(outcome) {
            Some(raster) => r is Ok && shows(r->Ok_0, raster),
            None => r is Err && r->Err_0 is Image && r->Err_0->Image_category@ == "load"@,
        },
{
    match outcome {
        Ok((width, height, raw)) => {
            match ImageInfo::from_raw(width, height, raw.as_slice()) {
                Some(img) => Ok(img),
                None => Err(ImageError::Unknown),
            }
        },
        Err(message) => Err(ImageError::Image { category: "load".to_owned(), message }),
    }
}

/// Decodes an image. `ext` is the extension of the file that the bytes came
/// from; it picks the decoder, and JPEG is tried where it names no format.
pub fn load(bytes: &[u8], ext: &str) -> (r: Result<ImageInfo, ImageError>)
    ensures
        match loaded(bytes@, ext@) {
            Some(raster) => r is Ok && shows(r->Ok_0, raster),
            None => r is Err && r->Err_0 is Image && r->Err_0->Image_category@ == "load"@,
        },
{
    match decode_rgba(bytes, ext) {
        Some(outcome) => image_of(outcome),
        None => match decode_rgba(bytes, "jpeg") {
            Some(outcome) => image_of(outcome),
            None => Err(ImageError::Unknown),
        },
    }
}

impl ImageInfo {
    /// The pixels as packed RGBA bytes.
    pub fn rgba_bytes(&self) -> (out: Vec<u8>)
        ensures
            out@ == packed_rgba(self.buffer@),
    {
        pack_rgba(&self.buffer)
    }

    /// The pixels as packed RGB bytes, alpha dropped: the input of the JPEG
    /// encoder.
    pub fn rgb_bytes(&self) -> (out: Vec<u8>)
        ensures
            out@ == packed_rgb(self.buffer@.map_values(|p: Rgba8| p.opaque())),
    {
        let rgb = self.get_rgb8();
        assert(rgb@ =~= self.buffer@.map_values(|p: Rgba8| p.opaque()));
        pack_rgb(&rgb)
    }

    /// The WebP step for a quality. At quality 100 the image is encoded
    /// losslessly, and an encoder failure is a failure of category
    /// `webp_encode`. At any other quality the answer is that the lossy
    /// encoder is due at that quality: nothing is encoded.
    pub fn to_webp(&self, quality: u8) -> (r: Result<WebpStep, ImageError>)
        requires
            self.wf(),
        ensures
            match webp_mode_of(quality) {
                Some(q) => r == Ok::<WebpStep, ImageError>(WebpStep::Lossy { quality: q }),
                None => match webp_lossless(
                    packed_rgba(self.buffer@),
                    self.width as u32,
                    self.height as u32,
                ) {
                    Some(bytes) => r is Ok && r->Ok_0 is Encoded && r->Ok_0->Encoded_0@ == bytes,
                    None => r is Err && r->Err_0 is Image && r->Err_0->Image_category@
                        == "webp_encode"@,
                },
            },
    {
        match webp_mode(quality) {
            Some(q) => Ok(WebpStep::Lossy { quality: q }),
            None => {
                let data = self.rgba_bytes();
                match webp_encode_lossless(
                    data.as_slice(),
                    self.width as u32,
                    self.height as u32,
                ) {
                    Ok(bytes) => Ok(WebpStep::Encoded(bytes)),
                    Err(message) => Err(
                        ImageError::Image { category: "webp_encode".to_owned(), message },
                    ),
                }
            },
        }
    }

    /// Encodes the image as an indexed PNG, given its palette and one
    /// palette index per pixel. An encoder failure is a failure of category
    /// `png_encode`.
    pub fn to_png(&self, palette: &Vec<Rgba8>, pixels: &Vec<u8>) -> (r: Result<Vec<u8>, ImageError>)
        requires
            self.wf(),
            pixels@.len() == self.buffer@.len(),
        ensures
            match png_encoded(palette@, pixels@, self.width, self.height) {
                Some(bytes) => r is Ok && r->Ok_0@ == bytes,
                None => r is Err && r->Err_0 is LodePNG && r->Err_0->LodePNG_category@
                    == "png_encode"@,
            },
    {
        match png_encode(palette, pixels.as_slice(), self.width, self.height) {
            Ok(bytes) => Ok(bytes),
            Err(message) => Err(
                ImageError::LodePNG { category: "png_encode".to_owned(), message },
            ),
        }
    }
}

} // verus!
