//! Pixel format descriptors and the one shared channel decoder.

use vstd::prelude::*;

verus! {

/// Where one color or alpha channel lives inside a packed pixel value.
#[derive(Clone, Copy, Debug, PartialEq, Eq, Structural)]
pub struct Channel {
    /// Position of the channel's lowest bit.
    pub offset: u32,
    /// Number of bits; zero means the channel is absent.
    pub length: u32,
}

/// The four channel descriptors of a direct-color pixel format.
#[derive(Clone, Copy, Debug, PartialEq, Eq, Structural)]
pub struct PixelFormat {
    pub red: Channel,
    pub green: Channel,
    pub blue: Channel,
    pub alpha: Channel,
}

impl Channel {
    /// The channel fits inside a 64-bit packed value.
    pub open spec fn wf(self) -> bool {
        self.offset as int + self.length as int <= 64
    }

    /// The channel occupies no bit that `other` occupies.
    pub open spec fn disjoint(self, other: Channel) -> bool {
        ||| self.length == 0
        ||| other.length == 0
        ||| self.offset + self.length <= other.offset
        ||| other.offset + other.length <= self.offset
    }
}

impl PixelFormat {
    pub open spec fn wf(self) -> bool {
        &&& self.red.wf()
        &&& self.green.wf()
        &&& self.blue.wf()
        &&& self.alpha.wf()
    }

    /// No two channels share a bit.
    pub open spec fn disjoint(self) -> bool {
        &&& self.red.disjoint(self.green)
        &&& self.red.disjoint(self.blue)
        &&& self.red.disjoint(self.alpha)
        &&& self.green.disjoint(self.blue)
        &&& self.green.disjoint(self.alpha)
        &&& self.blue.disjoint(self.alpha)
    }
}

/// The `len` lowest bits set.
pub open spec fn low_mask(len: u32) -> u64 {
    if len >= 64 {
        u64::MAX
    } else {
        ((1u64 << len) - 1) as u64
    }
}

/// The raw bits of channel `c` in the packed value `px`, shifted down to bit 0.
pub open spec fn channel_bits(px: u64, c: Channel) -> u64 {
    if c.length == 0 {
        0
    } else {
        (px >> c.offset) & low_mask(c.length)
    }
}

/// A channel value `v` of `len` bits brought to 8 bits: wider channels keep
/// their top eight bits, narrower ones are shifted up.
pub open spec fn to_u8(v: u64, len: u32) -> u8 {
    if len == 0 {
        0
    } else if len >= 8 {
        #[verifier::truncate] ((v >> ((len - 8) as u32)) as u8)
    } else {
        #[verifier::truncate] ((v << ((8 - len) as u32)) as u8)
    }
}

/// The 8-bit value of channel `c` in the packed value `px`.
pub open spec fn channel_u8(px: u64, c: Channel) -> u8 {
    to_u8(channel_bits(px, c), c.length)
}

/// The alpha value of `px`: fully opaque when the format has no alpha bits.
pub open spec fn alpha_u8(px: u64, f: PixelFormat) -> u8 {
    if f.alpha.length == 0 {
        255
    } else {
        channel_u8(px, f.alpha)
    }
}

/// Channel `k` (0 red, 1 green, 2 blue, 3 alpha) of `px` as a byte.
pub open spec fn pixel_byte(px: u64, f: PixelFormat, k: int) -> u8 {
    if k == 0 {
        channel_u8(px, f.red)
    } else if k == 1 {
        channel_u8(px, f.green)
    } else if k == 2 {
        channel_u8(px, f.blue)
    } else {
        alpha_u8(px, f)
    }
}

/// Decodes one channel of a packed pixel into a byte.
pub fn channel_value(px: u64, c: Channel) -> (r: u8)
    requires
        c.wf(),
    ensures
        r == channel_u8(px, c),
{
    if c.length == 0 {
        return 0;
    }
    let shifted = px >> c.offset;
    let bits = if c.length >= 64 {
        assert(shifted & u64::MAX == shifted) by (bit_vector);
        shifted
    } else {
        let len = c.length;
        assert(1u64 << len >= 1) by (bit_vector)
            requires len < 64;
        shifted & ((1u64 << len) - 1)
    };
    if c.length >= 8 {
        #[verifier::truncate] ((bits >> (c.length - 8)) as u8)
    } else {
        #[verifier::truncate] ((bits << (8 - c.length)) as u8)
    }
}

/// Decodes a packed pixel into red, green, blue and alpha bytes.
pub fn decode_pixel(px: u64, f: &PixelFormat) -> (r: [u8; 4])
    requires
        f.wf(),
    ensures
        forall|k: int| 0 <= k < 4 ==> r[k] == pixel_byte(px, *f, k),
{
    let a = if f.alpha.length == 0 {
        255u8
    } else {
        channel_value(px, f.alpha)
    };
    [channel_value(px, f.red), channel_value(px, f.green), channel_value(px, f.blue), a]
}

} // verus!
