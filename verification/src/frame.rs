//! The frame extraction sink: from a decoded sample to a frame for the
//! consumer.

use crate::error::VideoError;
use crate::pipeline::BYTES_PER_PIXEL;
use vstd::prelude::*;

verus! {

/// Whether `len` bytes are exactly the pixels of a `width` by `height`
/// frame, at four bytes a pixel.
pub open spec fn frame_fits(len: nat, width: i32, height: i32) -> bool {
    width >= 0 && height >= 0 && len == width * height * BYTES_PER_PIXEL
}

/// One decoded video frame: interleaved pixels of four bytes each, row by
/// row, with the frame's width and height.
///
/// A frame always holds `width * height * 4` bytes.
#[derive(Debug, PartialEq, Eq)]
pub struct FrameBuffer {
    pixels: Vec<u8>,
    width: i32,
    height: i32,
}

impl FrameBuffer {
    #[verifier::type_invariant]
    spec fn sized(self) -> bool {
        frame_fits(self.pixels@.len(), self.width, self.height)
    }

    /// The pixel bytes.
    pub closed spec fn pixels_of(self) -> Seq<u8> {
        self.pixels@
    }

    /// The width in pixels.
    pub closed spec fn width_of(self) -> i32 {
        self.width
    }

    /// The height in pixels.
    pub closed spec fn height_of(self) -> i32 {
        self.height
    }

    /// Makes a frame from raw pixel bytes.
    ///
    /// Succeeds exactly where the bytes are those of a `width` by `height`
    /// frame; the frame then holds them as given.
    pub fn from_raw(pixels: Vec<u8>, width: i32, height: i32) -> (frame: Option<FrameBuffer>)
        ensures
            frame.is_some() == frame_fits(pixels@.len(), width, height),
            frame matches Some(f) ==> f.pixels_of() == pixels@ && f.width_of() == width
                && f.height_of() == height,
    {
        if width < 0 || height < 0 {
            return None;
        }
        let w: u64 = width as u64;
        let h: u64 = height as u64;
        assert(w * h <= 0x3fff_ffff_0000_0001) by (nonlinear_arith)
            requires
                w <= 0x7fff_ffff,
                h <= 0x7fff_ffff,
        ;
        let area: u64 = w * h;
        let expected: u64 = area * 4;
        if pixels.len() as u64 == expected {
            Some(FrameBuffer { pixels, width, height })
        } else {
            None
        }
    }

    /// The width in pixels.
    pub fn width(&self) -> (width: i32)
        ensures
            width == self.width_of(),
            width >= 0,
    {
        proof {
            use_type_invariant(self);
        }
        self.width
    }

    /// The height in pixels.
    pub fn height(&self) -> (height: i32)
        ensures
            height == self.height_of(),
            height >= 0,
    {
        proof {
            use_type_invariant(self);
        }
        self.height
    }

    /// The pixel bytes, of which there are `width * height * 4`.
    pub fn pixels(&self) -> (pixels: &Vec<u8>)
        ensures
            pixels@ == self.pixels_of(),
            pixels@.len() == self.width_of() * self.height_of() * BYTES_PER_PIXEL,
    {
        proof {
            use_type_invariant(self);
        }
        &self.pixels
    }

    /// Gives up the frame for its pixel bytes.
    pub fn into_raw(self) -> (pixels: Vec<u8>)
        ensures
            pixels@ == self.pixels_of(),
            pixels@.len() == self.width_of() * self.height_of() * BYTES_PER_PIXEL,
    {
        proof {
            use_type_invariant(&self);
        }
        self.pixels
    }
}

/// Why no frame could be taken from the sink.
#[derive(Clone, Copy, Debug, PartialEq, Eq, Structural)]
pub enum SampleFault {
    /// The sink had no sample to pull.
    NoSample,
    /// The sample held no buffer.
    NoBuffer,
    /// The buffer's memory could not be mapped for reading.
    NotReadable,
    /// The sink had no sink pad.
    NoPad,
    /// The pad had no capabilities yet.
    NoCaps,
    /// The capabilities held no structure.
    NoStructure,
    /// The structure held no width.
    NoWidth,
    /// The structure held no height.
    NoHeight,
}

/// The two ways in which the sink tells the pipeline that a sample was not
/// taken.
#[derive(Clone, Copy, Debug, PartialEq, Eq, Structural)]
pub enum FlowError {
    /// The stream is at its end.
    Eos,
    /// The sample was unusable.
    Error,
}

/// A decoded sample as read from the sink: the mapped bytes, copied, and
/// the size that the pad has negotiated.
#[derive(Debug)]
pub struct RawSample {
    pub bytes: Vec<u8>,
    pub width: i32,
    pub height: i32,
}

/// What the sink answers the pipeline for a sample that could not be read.
pub open spec fn fault_flow(fault: SampleFault) -> FlowError {
    if fault == SampleFault::NoSample {
        FlowError::Eos
    } else {
        FlowError::Error
    }
}

/// Turns what was read from the sink into a frame for the consumer.
///
/// A sample whose bytes are those of a frame of the negotiated size becomes
/// that frame. Bytes of any other length are an error, as is every fault but
/// a missing sample, which says that the stream has ended.
pub fn new_sample(sample: Result<RawSample, SampleFault>) -> (result: Result<
    FrameBuffer,
    FlowError,
>)
    ensures
        match sample {
            Ok(raw) => match result {
                Ok(frame) => frame_fits(raw.bytes@.len(), raw.width, raw.height)
                    && frame.pixels_of() == raw.bytes@ && frame.width_of() == raw.width
                    && frame.height_of() == raw.height,
                Err(e) => e == FlowError::Error && !frame_fits(
                    raw.bytes@.len(),
                    raw.width,
                    raw.height,
                ),
            },
            Err(fault) => result == Err::<FrameBuffer, FlowError>(fault_flow(fault)),
        },
{
    match sample {
        Ok(raw) => {
            match FrameBuffer::from_raw(raw.bytes, raw.width, raw.height) {
                Some(frame) => Ok(frame),
                None => Err(FlowError::Error),
            }
        },
        Err(SampleFault::NoSample) => Err(FlowError::Eos),
        Err(_) => Err(FlowError::Error),
    }
}

/// What to log once a frame has been dispatched to the consumer.
///
/// Dispatch never holds the pipeline up. A frame that the channel did not
/// take is dropped, which is logged as `Delivery` and nothing more: the
/// pipeline is told that all went well either way.
pub fn after_dispatch(delivered: bool) -> (log: Option<VideoError>)
    ensures
        log == if delivered {
            None
        } else {
            Some(VideoError::Delivery)
        },
{
    if delivered {
        None
    } else {
        Some(VideoError::Delivery)
    }
}

} // verus!
