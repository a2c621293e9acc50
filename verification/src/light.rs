//! The point-light uniform.
//!
//! The light is a position and a color, written once into a small uniform
//! buffer.  GPU uniform layout aligns every three-component vector to 16
//! bytes, so each vector is followed by one zero padding word; the byte
//! encoding below makes that padding explicit and provable.

use vstd::prelude::*;
use crate::bits::{Vec3Bits, F32_ONE_BITS, F32_TWO_BITS};
use crate::mat4::{encode_words, words_to_bytes};

verus! {

/// A point light: position and color as single-precision bit patterns.
#[derive(Clone, Copy, PartialEq, Eq, Structural, Debug)]
pub struct LightUniform {
    pub position: Vec3Bits,
    pub color: Vec3Bits,
}

/// The light a fresh renderer uploads: position `(2, 1, 2)`, white color.
pub open spec fn spec_default_light() -> LightUniform {
    LightUniform {
        position: Vec3Bits { x: F32_TWO_BITS, y: F32_ONE_BITS, z: F32_TWO_BITS },
        color: Vec3Bits { x: F32_ONE_BITS, y: F32_ONE_BITS, z: F32_ONE_BITS },
    }
}

impl LightUniform {
    /// The eight words of the light's uniform image: each vector is
    /// followed by a zero word, rounding it to 16 bytes.
    pub open spec fn spec_words(self) -> Seq<u32> {
        seq![
            self.position.x,
            self.position.y,
            self.position.z,
            0u32,
            self.color.x,
            self.color.y,
            self.color.z,
            0u32,
        ]
    }

    /// The 32-byte image the light uniform buffer holds.
    pub open spec fn spec_bytes(self) -> Seq<u8> {
        words_to_bytes(self.spec_words())
    }

    /// The default light: position `(2, 1, 2)`, white color.
    pub fn new() -> (l: LightUniform)
        ensures
            l == spec_default_light(),
    {
        LightUniform {
            position: Vec3Bits { x: F32_TWO_BITS, y: F32_ONE_BITS, z: F32_TWO_BITS },
            color: Vec3Bits { x: F32_ONE_BITS, y: F32_ONE_BITS, z: F32_ONE_BITS },
        }
    }

    /// Encodes the light for upload, padding words included.
    pub fn to_bytes(&self) -> (b: Vec<u8>)
        ensures
            b@ == self.spec_bytes(),
            b@.len() == 32,
    {
        let mut words: Vec<u32> = Vec::new();
        words.push(self.position.x);
        words.push(self.position.y);
        words.push(self.position.z);
        words.push(0);
        words.push(self.color.x);
        words.push(self.color.y);
        words.push(self.color.z);
        words.push(0);
        proof {
            assert(words@ =~= self.spec_words());
        }
        encode_words(&words)
    }
}

} // verus!
