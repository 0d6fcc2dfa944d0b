//! Media units: the self-describing values the camera session yields. A unit
//! is a stream descriptor (geometry and frame rate), a key or delta frame
//! carrying a codec tag and an opaque payload, or some other kind the bridge
//! ignores.

use vstd::prelude::*;

verus! {

/// The compressed-video codec a frame unit is encoded with; it decides the
/// four-character code the sink format declares.
#[derive(Clone, Copy, Debug, PartialEq, Eq, Hash, Structural)]
pub enum Codec {
    H264,
    H265,
}

/// One unit from the camera's media stream.
#[derive(Clone, Debug, PartialEq, Eq)]
pub enum MediaUnit {
    /// First wire encoding of the stream descriptor.
    DescriptorV1 { width: u32, height: u32, fps: u8 },
    /// Second wire encoding of the stream descriptor; same meaning.
    DescriptorV2 { width: u32, height: u32, fps: u8 },
    /// A self-contained decodable frame.
    Keyframe { codec: Codec, payload: Vec<u8> },
    /// A frame that needs a prior keyframe to decode; forwarded the same way.
    Deltaframe { codec: Codec, payload: Vec<u8> },
    /// Audio, metadata and other kinds the bridge drops silently.
    Other,
}

impl MediaUnit {
    /// A unit that carries compressed video to forward.
    pub open spec fn is_frame(self) -> bool {
        self is Keyframe || self is Deltaframe
    }

    /// A unit that announces geometry and frame rate.
    pub open spec fn is_descriptor(self) -> bool {
        self is DescriptorV1 || self is DescriptorV2
    }

    /// The codec of a frame unit.
    pub open spec fn frame_codec(self) -> Codec
        recommends
            self.is_frame(),
    {
        match self {
            MediaUnit::Keyframe { codec, .. } => codec,
            MediaUnit::Deltaframe { codec, .. } => codec,
            _ => Codec::H264,
        }
    }

    /// The payload bytes of a frame unit.
    pub open spec fn frame_payload(self) -> Seq<u8>
        recommends
            self.is_frame(),
    {
        match self {
            MediaUnit::Keyframe { payload, .. } => payload@,
            MediaUnit::Deltaframe { payload, .. } => payload@,
            _ => Seq::empty(),
        }
    }

    /// The payload of a frame unit, as the vector value it arrived in.
    pub open spec fn frame_payload_vec(self) -> Vec<u8>
        recommends
            self.is_frame(),
    {
        match self {
            MediaUnit::Keyframe { payload, .. } => payload,
            MediaUnit::Deltaframe { payload, .. } => payload,
            _ => vstd::pervasive::arbitrary(),
        }
    }

    /// The width a descriptor unit announces.
    pub open spec fn descriptor_width(self) -> u32
        recommends
            self.is_descriptor(),
    {
        match self {
            MediaUnit::DescriptorV1 { width, .. } => width,
            MediaUnit::DescriptorV2 { width, .. } => width,
            _ => 0,
        }
    }

    /// The height a descriptor unit announces.
    pub open spec fn descriptor_height(self) -> u32
        recommends
            self.is_descriptor(),
    {
        match self {
            MediaUnit::DescriptorV1 { height, .. } => height,
            MediaUnit::DescriptorV2 { height, .. } => height,
            _ => 0,
        }
    }

    /// The frame rate a descriptor unit announces.
    pub open spec fn descriptor_fps(self) -> u8
        recommends
            self.is_descriptor(),
    {
        match self {
            MediaUnit::DescriptorV1 { fps, .. } => fps,
            MediaUnit::DescriptorV2 { fps, .. } => fps,
            _ => 0,
        }
    }
}

} // verus!
