//! Element types of a matrix: per-channel depth, channel count, and the
//! packed integer tag the native array layer uses to describe both.
//!
//! A depth and a channel count are packed into one integer as
//! `channels << 3 | depth`; decoding masks the low three bits for the depth
//! and shifts right by three for the channel count.  The packing is proved
//! to round-trip exactly for every channel count the constructor accepts.

use vstd::prelude::*;

use crate::errors::Error;

verus! {

/// Channel counts from this bound upward are rejected by [`MatType::new`].
pub const MAX_CHANNELS: u16 = 511;

/// Common packed element-type tags, named after the native convention:
/// 8-bit unsigned depth with one, two or three channels.
#[derive(Clone, Copy, Debug, PartialEq, Eq, Structural)]
pub enum CvType {
    /// 8 bit, single channel (grey image).
    Cv8UC1,
    /// 8 bit, two channels (rarely seen).
    Cv8UC2,
    /// 8 bit, three channels (colour image).
    Cv8UC3,
}

/// The packed tag denoted by a [`CvType`] name.
pub open spec fn cv_type_value(t: CvType) -> int {
    match t {
        CvType::Cv8UC1 => 0,
        CvType::Cv8UC2 => 8,
        CvType::Cv8UC3 => 16,
    }
}

impl CvType {
    /// Returns the packed element-type tag this name stands for.
    pub fn as_value(&self) -> (r: i32)
        ensures
            r == cv_type_value(*self),
    {
        match *self {
            CvType::Cv8UC1 => 0,
            CvType::Cv8UC2 => 8,
            CvType::Cv8UC3 => 16,
        }
    }
}

/// Per-channel depth of a matrix element: seven fixed-width numeric kinds
/// and an escape kind for user-defined elements.
#[derive(Clone, Copy, Debug, PartialEq, Eq, Structural)]
pub enum MatDepth {
    /// `u8`
    Unsigned8,
    /// `i8`
    Signed8,
    /// `u16`
    Unsigned16,
    /// `i16`
    Signed16,
    /// `i32`
    Signed32,
    /// 32-bit floating point
    Float32,
    /// 64-bit floating point
    Float64,
    /// Custom, user-defined depth
    UserDefined,
}

/// The three-bit code of a depth inside a packed element-type tag.
pub open spec fn depth_code(d: MatDepth) -> int {
    match d {
        MatDepth::Unsigned8 => 0,
        MatDepth::Signed8 => 1,
        MatDepth::Unsigned16 => 2,
        MatDepth::Signed16 => 3,
        MatDepth::Signed32 => 4,
        MatDepth::Float32 => 5,
        MatDepth::Float64 => 6,
        MatDepth::UserDefined => 7,
    }
}

/// The depth a three-bit code stands for.  Codes outside `[0, 8)` do not
/// arise from masking a tag and are mapped to the escape kind.
pub open spec fn depth_from_code(code: int) -> MatDepth {
    if code == 0 {
        MatDepth::Unsigned8
    } else if code == 1 {
        MatDepth::Signed8
    } else if code == 2 {
        MatDepth::Unsigned16
    } else if code == 3 {
        MatDepth::Signed16
    } else if code == 4 {
        MatDepth::Signed32
    } else if code == 5 {
        MatDepth::Float32
    } else if code == 6 {
        MatDepth::Float64
    } else {
        MatDepth::UserDefined
    }
}

/// Bytes one channel of the given depth occupies in a dense buffer.
/// The user-defined escape kind occupies a full eight-byte slot.
pub open spec fn depth_byte_size(d: MatDepth) -> int {
    match d {
        MatDepth::Unsigned8 => 1,
        MatDepth::Signed8 => 1,
        MatDepth::Unsigned16 => 2,
        MatDepth::Signed16 => 2,
        MatDepth::Signed32 => 4,
        MatDepth::Float32 => 4,
        MatDepth::Float64 => 8,
        MatDepth::UserDefined => 8,
    }
}

/// The packed tag of a depth together with a channel count:
/// `channels << 3 | depth`, stated arithmetically.
pub open spec fn pack_value(d: MatDepth, channels: int) -> int {
    channels * 8 + depth_code(d)
}

/// A valid matrix element type: a per-channel depth and a channel count
/// below [`MAX_CHANNELS`].
#[derive(Clone, Copy, Debug, PartialEq, Eq, Structural)]
pub struct MatType {
    depth: MatDepth,
    channels: u16,
}

impl MatType {
    /// The depth per channel.
    pub closed spec fn spec_depth(self) -> MatDepth {
        self.depth
    }

    /// The channel count.
    pub closed spec fn spec_channels(self) -> u16 {
        self.channels
    }

    /// Every constructed element type keeps its channel count below the
    /// supported bound.
    pub open spec fn wf(self) -> bool {
        self.spec_channels() < MAX_CHANNELS
    }

    /// Bytes one element (all channels together) occupies.
    pub open spec fn spec_elem_size(self) -> int {
        self.spec_channels() * depth_byte_size(self.spec_depth())
    }

    /// Initializes a new element type.
    ///
    /// Succeeds exactly when the channel count is below [`MAX_CHANNELS`];
    /// a larger count is rejected with a channel-count error, never
    /// silently clamped.
    pub fn new(depth: MatDepth, channels: u16) -> (r: Result<Self, Error>)
        ensures
            channels < MAX_CHANNELS ==> (r matches Ok(t) && t.spec_depth() == depth
                && t.spec_channels() == channels),
            channels >= MAX_CHANNELS ==> (r matches Err(e) && e == (Error::UnsupportedChannelCount {
                supplied: channels as u32,
                max: MAX_CHANNELS as u32,
            })),
    {
        if channels < MAX_CHANNELS {
            Ok(MatType { depth, channels })
        } else {
            Err(Error::UnsupportedChannelCount {
                supplied: channels as u32,
                max: MAX_CHANNELS as u32,
            })
        }
    }

    /// Returns the depth per channel.
    pub fn depth(&self) -> (r: MatDepth)
        ensures
            r == self.spec_depth(),
    {
        self.depth
    }

    /// Returns the channel count.
    pub fn channels(&self) -> (r: u16)
        ensures
            r == self.spec_channels(),
    {
        self.channels
    }

    /// Returns the bytes one element occupies.
    pub fn elem_size(&self) -> (r: usize)
        ensures
            r == self.spec_elem_size(),
    {
        let depth_bytes: usize = match self.depth {
            MatDepth::Unsigned8 => 1,
            MatDepth::Signed8 => 1,
            MatDepth::Unsigned16 => 2,
            MatDepth::Signed16 => 2,
            MatDepth::Signed32 => 4,
            MatDepth::Float32 => 4,
            MatDepth::Float64 => 8,
            MatDepth::UserDefined => 8,
        };
        (self.channels as usize) * depth_bytes
    }

    /// Packs this element type into the native integer tag.
    pub fn as_opencv_value(&self) -> (r: i32)
        ensures
            r == pack_value(self.spec_depth(), self.spec_channels() as int),
    {
        let code: i32 = match self.depth {
            MatDepth::Unsigned8 => 0,
            MatDepth::Signed8 => 1,
            MatDepth::Unsigned16 => 2,
            MatDepth::Signed16 => 3,
            MatDepth::Signed32 => 4,
            MatDepth::Float32 => 5,
            MatDepth::Float64 => 6,
            MatDepth::UserDefined => 7,
        };
        let c: i32 = self.channels as i32;
        let packed: i32 = (c << 3) | code;
        assert(packed == c * 8 + code) by (bit_vector)
            requires
                0 <= c < 65536,
                0 <= code < 8,
                packed == (c << 3) | code,
        ;
        packed
    }

    /// Decodes a packed element-type tag.
    ///
    /// Succeeds exactly when the tag is non-negative and its channel part
    /// is below [`MAX_CHANNELS`].
    pub fn from_opencv_value(value: i32) -> (r: Result<Self, Error>)
        ensures
            0 <= value && value / 8 < MAX_CHANNELS ==> (r matches Ok(t)
                && t.spec_depth() == depth_from_code((value as int) % 8)
                && t.spec_channels() == value / 8),
            value < 0 ==> (r matches Err(e) && e == (Error::InvalidTypeValue {
                value: value as i64,
            })),
            value >= 0 && value / 8 >= MAX_CHANNELS ==> (r matches Err(e)
                && e == (Error::UnsupportedChannelCount {
                supplied: (value / 8) as u32,
                max: MAX_CHANNELS as u32,
            })),
    {
        if value < 0 {
            return Err(Error::InvalidTypeValue { value: value as i64 });
        }
        let v: u32 = value as u32;
        let code: u32 = v % 8;
        let channel_part: u32 = v / 8;
        if channel_part >= MAX_CHANNELS as u32 {
            return Err(Error::UnsupportedChannelCount {
                supplied: channel_part,
                max: MAX_CHANNELS as u32,
            });
        }
        let depth = if code == 0 {
            MatDepth::Unsigned8
        } else if code == 1 {
            MatDepth::Signed8
        } else if code == 2 {
            MatDepth::Unsigned16
        } else if code == 3 {
            MatDepth::Signed16
        } else if code == 4 {
            MatDepth::Signed32
        } else if code == 5 {
            MatDepth::Float32
        } else if code == 6 {
            MatDepth::Float64
        } else {
            MatDepth::UserDefined
        };
        Ok(MatType { depth, channels: channel_part as u16 })
    }
}

/// Packing an element type and decoding the packed tag gives the depth and
/// channel count back unchanged, for every depth and every channel count
/// the constructor accepts; the tag itself stays within the range a native
/// tag may take.
pub proof fn lemma_type_packing_round_trip(depth: MatDepth, channels: u16)
    requires
        channels < MAX_CHANNELS,
    ensures
        depth_from_code(pack_value(depth, channels as int) % 8) == depth,
        pack_value(depth, channels as int) / 8 == channels as int,
        0 <= pack_value(depth, channels as int) < 4088,
{
    let code = depth_code(depth);
    let packed = pack_value(depth, channels as int);
    vstd::arithmetic::div_mod::lemma_fundamental_div_mod_converse(
        packed,
        8,
        channels as int,
        code,
    );
    assert(depth_from_code(code) == depth);
}

} // verus!
