//! Decoded frames: their dimensions and what they carry.
//!
//! A frame is produced whole by the decode side and never changed afterwards.
//! It carries either a tightly packed four-channel, eight-bit pixel buffer, or,
//! when the decoder writes straight into GPU memory, the name of the texture
//! that already holds the picture.

use vstd::prelude::*;

verus! {

/// Width and height of a frame or texture, in pixels.
#[derive(Clone, Copy, Debug, PartialEq, Eq, Structural)]
pub struct Dimensions {
    pub width: u32,
    pub height: u32,
}

impl Dimensions {
    /// Bytes that a tightly packed four-channel, eight-bit image of this size occupies.
    pub open spec fn byte_len(self) -> nat {
        (self.width as nat) * (self.height as nat) * 4
    }

    /// The byte length of an image of this size, where the machine can address it.
    pub fn checked_byte_len(&self) -> (n: Option<usize>)
        ensures
            n is Some <==> self.byte_len() <= usize::MAX,
            n matches Some(len) ==> len == self.byte_len(),
    {
        let area: u128 = pixel_count(self.width, self.height);
        let bytes: u128 = area * 4;
        if bytes <= usize::MAX as u128 {
            Some(bytes as usize)
        } else {
            None
        }
    }
}

/// Layout of a pixel. Frames and textures are always four channels of eight bits.
#[derive(Clone, Copy, Debug, PartialEq, Eq, Structural)]
pub enum PixelFormat {
    Rgba8,
}

/// Number of pixels in a `width` by `height` image, computed without overflow.
fn pixel_count(width: u32, height: u32) -> (area: u128)
    ensures
        area == (width as nat) * (height as nat),
        area <= 0xFFFF_FFFE_0000_0001,
{
    assert((width as int) * (height as int) <= 0xFFFF_FFFF * 0xFFFF_FFFF) by (nonlinear_arith)
        requires
            0 <= width <= 0xFFFF_FFFF,
            0 <= height <= 0xFFFF_FFFF,
    ;
    (width as u128) * (height as u128)
}

/// What a frame carries.
#[derive(Debug, PartialEq, Eq)]
pub enum Payload {
    /// Pixel bytes in system memory, four channels of eight bits, rows tightly packed.
    Pixels(Vec<u8>),
    /// The name of a GPU texture that the decoder has already filled.
    Texture(u32),
}

/// Mathematical content of a [`Payload`].
pub enum PayloadView {
    Pixels(Seq<u8>),
    Texture(u32),
}

impl View for Payload {
    type V = PayloadView;

    open spec fn view(&self) -> PayloadView {
        match self {
            Payload::Pixels(bytes) => PayloadView::Pixels(bytes@),
            Payload::Texture(name) => PayloadView::Texture(*name),
        }
    }
}

impl Clone for Payload {
    fn clone(&self) -> (copy: Payload)
        ensures
            copy@ == self@,
    {
        match self {
            Payload::Pixels(bytes) => {
                let copied: Vec<u8> = bytes.clone();
                assert(copied@ =~= bytes@);
                Payload::Pixels(copied)
            },
            Payload::Texture(name) => Payload::Texture(*name),
        }
    }
}

/// Mathematical content of a [`Frame`].
pub struct FrameView {
    pub dims: Dimensions,
    pub payload: PayloadView,
}

impl FrameView {
    /// A pixel payload has exactly the byte length that the dimensions call for.
    pub open spec fn valid(self) -> bool {
        self.payload matches PayloadView::Pixels(bytes) ==> bytes.len() == self.dims.byte_len()
    }
}

/// One decoded video frame.
#[derive(Debug, PartialEq, Eq)]
pub struct Frame {
    dims: Dimensions,
    payload: Payload,
}

impl View for Frame {
    type V = FrameView;

    closed spec fn view(&self) -> FrameView {
        FrameView { dims: self.dims, payload: self.payload@ }
    }
}

impl Clone for Frame {
    fn clone(&self) -> (copy: Frame)
        ensures
            copy@ == self@,
    {
        proof {
            use_type_invariant(self);
        }
        Frame { dims: self.dims, payload: self.payload.clone() }
    }
}

impl Frame {
    /// Every frame is well formed: a pixel buffer has the full length.
    #[verifier::type_invariant]
    pub open spec fn well_formed(self) -> bool {
        self@.valid()
    }

    /// Builds a frame from pixel bytes. The buffer must hold exactly
    /// `width * height * 4` bytes; any other length is refused.
    pub fn from_pixels(width: u32, height: u32, pixels: Vec<u8>) -> (frame: Option<Frame>)
        ensures
            frame is Some <==> pixels@.len() == (Dimensions { width, height }).byte_len(),
            frame matches Some(f) ==> f@ == (FrameView {
                dims: Dimensions { width, height },
                payload: PayloadView::Pixels(pixels@),
            }),
    {
        let dims = Dimensions { width, height };
        let supplied: usize = pixels.len();
        match dims.checked_byte_len() {
            Some(expected) => {
                if supplied == expected {
                    Some(Frame { dims, payload: Payload::Pixels(pixels) })
                } else {
                    None
                }
            },
            None => None,
        }
    }

    /// Builds a frame that refers to a texture the decoder has filled on the GPU.
    pub fn from_texture(width: u32, height: u32, texture: u32) -> (frame: Frame)
        ensures
            frame@ == (FrameView {
                dims: Dimensions { width, height },
                payload: PayloadView::Texture(texture),
            }),
    {
        Frame { dims: Dimensions { width, height }, payload: Payload::Texture(texture) }
    }

    /// Width in pixels.
    pub fn width(&self) -> (w: u32)
        ensures
            w == self@.dims.width,
    {
        self.dims.width
    }

    /// Height in pixels.
    pub fn height(&self) -> (h: u32)
        ensures
            h == self@.dims.height,
    {
        self.dims.height
    }

    /// Width and height together.
    pub fn dimensions(&self) -> (d: Dimensions)
        ensures
            d == self@.dims,
    {
        self.dims
    }

    /// The payload, together with the fact that a pixel buffer has the full length.
    pub fn payload(&self) -> (p: &Payload)
        ensures
            p@ == self@.payload,
            self@.valid(),
    {
        proof {
            use_type_invariant(self);
        }
        &self.payload
    }

    /// The pixel bytes, if this frame carries any.
    pub fn pixels(&self) -> (bytes: Option<&Vec<u8>>)
        ensures
            match bytes {
                Some(b) => self@.payload == PayloadView::Pixels(b@) && b@.len()
                    == self@.dims.byte_len(),
                None => self@.payload is Texture,
            },
    {
        proof {
            use_type_invariant(self);
        }
        match &self.payload {
            Payload::Pixels(bytes) => Some(bytes),
            Payload::Texture(_) => None,
        }
    }

    /// The GPU texture name, if the frame is resident on the GPU.
    pub fn texture(&self) -> (name: Option<u32>)
        ensures
            match name {
                Some(n) => self@.payload == PayloadView::Texture(n),
                None => self@.payload is Pixels,
            },
    {
        match &self.payload {
            Payload::Pixels(_) => None,
            Payload::Texture(name) => Some(*name),
        }
    }
}

} // verus!
