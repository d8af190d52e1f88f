use vstd::prelude::*;

verus! {

/// The pixel layout that a decoded frame declares.
#[derive(Clone, Copy, Debug, PartialEq, Eq, Structural)]
pub enum PixelFormat {
    /// Three bytes per pixel: red, green, blue.
    Rgb8,
    /// Four bytes per pixel: red, green, blue, alpha.
    Rgba8,
    /// Three bytes per pixel: blue, green, red.
    Bgr8,
    /// Four bytes per pixel: blue, green, red, alpha.
    Bgra8,
    /// One byte per pixel.
    Gray8,
    /// Planar 4:2:0 with separate chroma planes.
    I420,
    /// Planar 4:2:0 with interleaved chroma.
    Nv12,
    /// Any other layout.
    Unknown,
}

/// A frame was declared in a layout that cannot be displayed.
#[derive(Clone, Copy, Debug, PartialEq, Eq, Structural)]
pub struct UnsupportedFormatError {
    /// The layout that the frame declared.
    pub format: PixelFormat,
}

impl PixelFormat {
    /// The short name of the layout.
    pub open spec fn spec_name(self) -> Seq<char> {
        match self {
            PixelFormat::Rgb8 => "RGB"@,
            PixelFormat::Rgba8 => "RGBA"@,
            PixelFormat::Bgr8 => "BGR"@,
            PixelFormat::Bgra8 => "BGRA"@,
            PixelFormat::Gray8 => "GRAY8"@,
            PixelFormat::I420 => "I420"@,
            PixelFormat::Nv12 => "NV12"@,
            PixelFormat::Unknown => "UNKNOWN"@,
        }
    }

    /// The short name of the layout.
    pub fn name(self) -> (r: &'static str)
        ensures
            r@ == self.spec_name(),
    {
        match self {
            PixelFormat::Rgb8 => "RGB",
            PixelFormat::Rgba8 => "RGBA",
            PixelFormat::Bgr8 => "BGR",
            PixelFormat::Bgra8 => "BGRA",
            PixelFormat::Gray8 => "GRAY8",
            PixelFormat::I420 => "I420",
            PixelFormat::Nv12 => "NV12",
            PixelFormat::Unknown => "UNKNOWN",
        }
    }
}

impl UnsupportedFormatError {
    /// The diagnostic for the error: a fixed sentence, then the name of the
    /// layout.
    pub open spec fn spec_message(self) -> Seq<char> {
        "Cannot convert frame to an RGB frame because it is format "@ + self.format.spec_name()
    }

    /// The diagnostic for the error.
    pub fn message(&self) -> (r: String)
        ensures
            r@ == self.spec_message(),
    {
        let mut text = String::from_str(
            "Cannot convert frame to an RGB frame because it is format ",
        );
        text.append(self.format.name());
        text
    }
}

/// The number of bytes of a tightly packed RGB8 image.
pub open spec fn rgb8_len(width: u32, height: u32) -> nat {
    (width as nat) * (height as nat) * 3
}

/// Declares `slint::SharedPixelBuffer`, the reference-counted pixel
/// container that the display surface takes. It is opaque here: contracts
/// speak of it through `shared_bytes` and `shared_size` alone.
#[verifier::external_type_specification]
#[verifier::external_body]
#[verifier::reject_recursive_types(Pixel)]
pub struct ExSharedPixelBuffer<Pixel>(slint::SharedPixelBuffer<Pixel>);

/// Declares `rgb::Rgb`, the pixel type of an RGB8 shared pixel buffer. It
/// is opaque here and only ever occurs as that buffer's parameter.
#[verifier::external_type_specification]
#[verifier::external_body]
#[verifier::reject_recursive_types(T)]
pub struct ExRgb<T>(rgb::Rgb<T>);

/// The bytes that a shared pixel buffer holds, row by row.
pub uninterp spec fn shared_bytes(buffer: slint::SharedPixelBuffer<slint::Rgb8Pixel>) -> Seq<u8>;

/// The width and the height, in pixels, that a shared pixel buffer was made
/// with.
pub uninterp spec fn shared_size(buffer: slint::SharedPixelBuffer<slint::Rgb8Pixel>) -> (u32, u32);

/// Calls `slint::SharedPixelBuffer::<Rgb8Pixel>::clone_from_slice`.
///
/// Taken on trust from that crate: given exactly three bytes for each of
/// `width * height` pixels, the call copies them unchanged into a new
/// buffer that records `width` and `height`. Any other length makes the
/// call panic and is excluded.
#[verifier::external_body]
fn shared_from_slice(bytes: &[u8], width: u32, height: u32) -> (r: slint::SharedPixelBuffer<
    slint::Rgb8Pixel,
>)
    requires
        bytes@.len() == rgb8_len(width, height),
    ensures
        shared_bytes(r) == bytes@,
        shared_size(r) == (width, height),
{
    slint::SharedPixelBuffer::<slint::Rgb8Pixel>::clone_from_slice(bytes, width, height)
}

/// Calls `slint::SharedPixelBuffer::as_bytes`, which hands out the pixels
/// of the buffer as raw bytes.
#[verifier::external_body]
fn shared_as_bytes(buffer: &slint::SharedPixelBuffer<slint::Rgb8Pixel>) -> (r: &[u8])
    ensures
        r@ == shared_bytes(*buffer),
{
    buffer.as_bytes()
}

/// Calls `slint::SharedPixelBuffer::width`, which returns the width that
/// the buffer was made with.
#[verifier::external_body]
fn shared_width(buffer: &slint::SharedPixelBuffer<slint::Rgb8Pixel>) -> (r: u32)
    ensures
        r == shared_size(*buffer).0,
{
    buffer.width()
}

/// Calls `slint::SharedPixelBuffer::height`, which returns the height that
/// the buffer was made with.
#[verifier::external_body]
fn shared_height(buffer: &slint::SharedPixelBuffer<slint::Rgb8Pixel>) -> (r: u32)
    ensures
        r == shared_size(*buffer).1,
{
    buffer.height()
}

/// A decoded video frame: its size, the layout it declares, and the bytes
/// of its first colour plane.
///
/// A frame that declares RGB8 is tightly packed and row-major: its plane
/// holds exactly three bytes for each of its `width * height` pixels.
#[derive(Debug)]
pub struct Frame {
    width: u32,
    height: u32,
    format: PixelFormat,
    plane: Vec<u8>,
}

impl Frame {
    #[verifier::type_invariant]
    spec fn packed(self) -> bool {
        self.format == PixelFormat::Rgb8 ==> self.plane@.len() == rgb8_len(self.width, self.height)
    }

    /// The width in pixels.
    pub closed spec fn spec_width(self) -> u32 {
        self.width
    }

    /// The height in pixels.
    pub closed spec fn spec_height(self) -> u32 {
        self.height
    }

    /// The declared layout.
    pub closed spec fn spec_format(self) -> PixelFormat {
        self.format
    }

    /// The bytes of the first colour plane.
    pub closed spec fn spec_plane(self) -> Seq<u8> {
        self.plane@
    }

    /// The width in pixels.
    pub fn width(&self) -> (r: u32)
        ensures
            r == self.spec_width(),
    {
        self.width
    }

    /// The height in pixels.
    pub fn height(&self) -> (r: u32)
        ensures
            r == self.spec_height(),
    {
        self.height
    }

    /// The declared layout.
    pub fn format(&self) -> (r: PixelFormat)
        ensures
            r == self.spec_format(),
    {
        self.format
    }

    /// The bytes of the first colour plane.
    pub fn plane(&self) -> (r: &[u8])
        ensures
            r@ == self.spec_plane(),
    {
        self.plane.as_slice()
    }

    /// Whether a plane of `len` bytes is acceptable for a frame of the
    /// given size and layout: an RGB8 plane must be tightly packed.
    pub open spec fn accepts(width: u32, height: u32, format: PixelFormat, len: nat) -> bool {
        format == PixelFormat::Rgb8 ==> len == rgb8_len(width, height)
    }

    /// Makes a frame, or nothing where an RGB8 plane is not tightly packed.
    pub fn new(width: u32, height: u32, format: PixelFormat, plane: Vec<u8>) -> (r: Option<Frame>)
        ensures
            r is Some <==> Self::accepts(width, height, format, plane@.len()),
            r is Some ==> {
                &&& r->0.spec_width() == width
                &&& r->0.spec_height() == height
                &&& r->0.spec_format() == format
                &&& r->0.spec_plane() == plane@
            },
    {
        let packed = match format {
            PixelFormat::Rgb8 => {
                let pixels: u64 = pixel_count(width, height);
                let len: u128 = plane.len() as u128;
                len == (pixels as u128) * 3
            },
            _ => true,
        };
        if packed {
            Some(Frame { width, height, format, plane })
        } else {
            None
        }
    }
}

/// `width * height`, which always fits in 64 bits.
fn pixel_count(width: u32, height: u32) -> (r: u64)
    ensures
        r == (width as nat) * (height as nat),
{
    assert((width as nat) * (height as nat) <= 0xFFFF_FFFF * 0xFFFF_FFFF) by (nonlinear_arith)
        requires
            width <= 0xFFFF_FFFF,
            height <= 0xFFFF_FFFF,
    ;
    (width as u64) * (height as u64)
}

/// A pixel buffer that the display surface can show: RGB8, row-major,
/// tightly packed.
#[derive(Debug)]
pub struct PixelBuffer {
    shared: slint::SharedPixelBuffer<slint::Rgb8Pixel>,
}

impl PixelBuffer {
    /// The bytes of the buffer.
    pub closed spec fn view(&self) -> Seq<u8> {
        shared_bytes(self.shared)
    }

    /// The width in pixels that the buffer is tagged with.
    pub closed spec fn spec_width(&self) -> u32 {
        shared_size(self.shared).0
    }

    /// The height in pixels that the buffer is tagged with.
    pub closed spec fn spec_height(&self) -> u32 {
        shared_size(self.shared).1
    }

    /// The width in pixels.
    pub fn width(&self) -> (r: u32)
        ensures
            r == self.spec_width(),
    {
        shared_width(&self.shared)
    }

    /// The height in pixels.
    pub fn height(&self) -> (r: u32)
        ensures
            r == self.spec_height(),
    {
        shared_height(&self.shared)
    }

    /// The bytes of the buffer, three for each pixel.
    pub fn as_bytes(&self) -> (r: &[u8])
        ensures
            r@ == self@,
    {
        shared_as_bytes(&self.shared)
    }

    /// Gives up the buffer in the form that the display surface takes.
    pub fn into_shared(self) -> (r: slint::SharedPixelBuffer<slint::Rgb8Pixel>)
        ensures
            shared_bytes(r) == self@,
            shared_size(r) == (self.spec_width(), self.spec_height()),
    {
        self.shared
    }
}

/// Whether `outcome` is what converting `frame` gives.
///
/// A frame that declares RGB8 gives a buffer of the frame's width and
/// height whose bytes are those of the frame's plane, three for each pixel.
/// A frame in any other layout gives an error that carries the layout.
pub open spec fn is_conversion_of(
    outcome: Result<PixelBuffer, UnsupportedFormatError>,
    frame: Frame,
) -> bool {
    match outcome {
        Ok(buffer) => {
            &&& frame.spec_format() == PixelFormat::Rgb8
            &&& buffer@ == frame.spec_plane()
            &&& buffer@.len() == rgb8_len(frame.spec_width(), frame.spec_height())
            &&& buffer.spec_width() == frame.spec_width()
            &&& buffer.spec_height() == frame.spec_height()
        },
        Err(error) => {
            &&& frame.spec_format() != PixelFormat::Rgb8
            &&& error.format == frame.spec_format()
        },
    }
}

/// Turns a decoded frame into a displayable pixel buffer.
///
/// The plane of an RGB8 frame is copied byte for byte, with no resampling
/// and no colour conversion; every other layout is refused.
pub fn convert(frame: &Frame) -> (r: Result<PixelBuffer, UnsupportedFormatError>)
    ensures
        is_conversion_of(r, *frame),
{
    proof {
        use_type_invariant(frame);
    }
    match frame.format {
        PixelFormat::Rgb8 => {
            let shared = shared_from_slice(frame.plane.as_slice(), frame.width, frame.height);
            Ok(PixelBuffer { shared })
        },
        other => Err(UnsupportedFormatError { format: other }),
    }
}

} // verus!
