//! Format state: what the bridge knows so far about the stream's geometry,
//! frame rate and codec, and the fully-known format a sink can be configured
//! with. The sink may only be created once all four fields are known.

use crate::media::Codec;
use crate::media::MediaUnit;
use vstd::prelude::*;

verus! {

/// A fully negotiated sink format: every field the kernel device needs is
/// known. Holding the fields without `Option` is what makes "configure only
/// when everything is known" a fact of the type.
#[derive(Clone, Copy, Debug, PartialEq, Eq, Structural)]
pub struct SinkFormat {
    pub width: u32,
    pub height: u32,
    pub fps: u8,
    pub codec: Codec,
}

/// The four-character code the sink declares for a codec: `H264` for H264,
/// `HEVC` for H265.
pub open spec fn spec_fourcc(c: Codec) -> Seq<u8> {
    match c {
        Codec::H264 => seq![72u8, 50u8, 54u8, 52u8],
        Codec::H265 => seq![72u8, 69u8, 86u8, 67u8],
    }
}

impl SinkFormat {
    /// The four bytes of the four-character code for this format's codec.
    pub fn fourcc_bytes(&self) -> (r: Vec<u8>)
        ensures
            r@ == spec_fourcc(self.codec),
    {
        let mut r: Vec<u8> = Vec::new();
        match self.codec {
            Codec::H264 => {
                r.push(72u8);
                r.push(50u8);
                r.push(54u8);
                r.push(52u8);
            },
            Codec::H265 => {
                r.push(72u8);
                r.push(69u8);
                r.push(86u8);
                r.push(67u8);
            },
        }
        proof {
            assert(r@ =~= spec_fourcc(self.codec));
        }
        r
    }
}

/// What is known so far of the stream's format. Fields stay `None` until a
/// descriptor or frame unit supplies them.
#[derive(Clone, Copy, Debug, PartialEq, Eq, Structural)]
pub struct FormatState {
    pub width: Option<u32>,
    pub height: Option<u32>,
    pub fps: Option<u8>,
    pub codec: Option<Codec>,
}

/// The format state after reading one media unit: a descriptor supplies
/// width, height and frame rate, a frame unit supplies the codec, and every
/// other unit changes nothing.
pub open spec fn absorb_spec(s: FormatState, u: MediaUnit) -> FormatState {
    if u.is_descriptor() {
        FormatState {
            width: Some(u.descriptor_width()),
            height: Some(u.descriptor_height()),
            fps: Some(u.descriptor_fps()),
            codec: s.codec,
        }
    } else if u.is_frame() {
        FormatState { codec: Some(u.frame_codec()), ..s }
    } else {
        s
    }
}

impl FormatState {
    /// All four fields are known.
    pub open spec fn complete(self) -> bool {
        self.width is Some && self.height is Some && self.fps is Some && self.codec is Some
    }

    /// The sink format a complete state commits to.
    pub open spec fn as_sink_format(self) -> SinkFormat
        recommends
            self.complete(),
    {
        SinkFormat {
            width: self.width->0,
            height: self.height->0,
            fps: self.fps->0,
            codec: self.codec->0,
        }
    }

    /// A fresh state knows nothing.
    pub fn new() -> (s: FormatState)
        ensures
            s.width is None,
            s.height is None,
            s.fps is None,
            s.codec is None,
    {
        FormatState { width: None, height: None, fps: None, codec: None }
    }

    /// Record the stream's codec.
    pub fn set_format(&mut self, codec: Option<Codec>)
        ensures
            *final(self) == (FormatState { codec, ..*old(self) }),
    {
        self.codec = codec;
    }

    /// Record the stream's geometry.
    pub fn set_resolution(&mut self, width: Option<u32>, height: Option<u32>)
        ensures
            *final(self) == (FormatState { width, height, ..*old(self) }),
    {
        self.width = width;
        self.height = height;
    }

    /// Record the stream's frame rate.
    pub fn set_fps(&mut self, fps: Option<u8>)
        ensures
            *final(self) == (FormatState { fps, ..*old(self) }),
    {
        self.fps = fps;
    }

    /// Fold one media unit into the state.
    pub fn absorb(&mut self, unit: &MediaUnit)
        ensures
            *final(self) == absorb_spec(*old(self), *unit),
    {
        match unit {
            MediaUnit::DescriptorV1 { width, height, fps } => {
                self.set_resolution(Some(*width), Some(*height));
                self.set_fps(Some(*fps));
            },
            MediaUnit::DescriptorV2 { width, height, fps } => {
                self.set_resolution(Some(*width), Some(*height));
                self.set_fps(Some(*fps));
            },
            MediaUnit::Keyframe { codec, .. } => {
                self.set_format(Some(*codec));
            },
            MediaUnit::Deltaframe { codec, .. } => {
                self.set_format(Some(*codec));
            },
            MediaUnit::Other => {},
        }
    }

    /// The committed format, if every field is known; `None` otherwise.
    pub fn committed(&self) -> (r: Option<SinkFormat>)
        ensures
            self.complete() ==> r == Some(self.as_sink_format()),
            !self.complete() ==> r is None,
    {
        match (self.width, self.height, self.fps, self.codec) {
            (Some(width), Some(height), Some(fps), Some(codec)) => Some(
                SinkFormat { width, height, fps, codec },
            ),
            _ => None,
        }
    }
}

} // verus!
