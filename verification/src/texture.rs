//! The one texture that is drawn onto the mesh.

use vstd::prelude::*;
use crate::target::Extent;

verus! {

/// The size of one texel in bytes: four channels of one 32-bit float each.
pub const TEXEL_BYTES: u64 = 16;

/// The number of bytes the texels of a texture of `extent` take.
pub open spec fn texel_bytes(extent: Extent) -> nat {
    (TEXEL_BYTES * extent.width * extent.height) as nat
}

/// The number of bytes the texels of a texture of `extent` take; none where
/// that number does not fit.
pub fn texture_data_size(extent: Extent) -> (size: Option<u64>)
    ensures
        texel_bytes(extent) <= u64::MAX <==> size is Some,
        size matches Some(bytes) ==> bytes == texel_bytes(extent),
{
    assert(extent.width * extent.height <= 0xffff_ffff * 0xffff_ffff) by (nonlinear_arith)
        requires
            extent.width <= 0xffff_ffff,
            extent.height <= 0xffff_ffff,
    ;
    let texels: u64 = (extent.width as u64) * (extent.height as u64);
    assert(TEXEL_BYTES * extent.width * extent.height == TEXEL_BYTES * texels) by (nonlinear_arith)
        requires
            texels == extent.width * extent.height,
    ;
    texels.checked_mul(TEXEL_BYTES)
}

/// Why a buffer of bytes is no texture of a given extent.
#[derive(Clone, Copy, Debug, PartialEq, Eq, Structural)]
pub enum TextureError {
    /// A texture of that extent takes more bytes than can be counted.
    TooLarge,
    /// The extent asks for `expected` bytes, the buffer holds `found`.
    WrongLength { expected: u64, found: usize },
}

/// Decoded texels with their extent, row by row, `TEXEL_BYTES` to a texel.
/// It is never changed once made.
#[derive(Debug)]
pub struct Texture {
    extent: Extent,
    texels: Vec<u8>,
}

impl Texture {
    #[verifier::type_invariant]
    spec fn filled(self) -> bool {
        self.texels@.len() == texel_bytes(self.extent)
    }

    /// The width and height in texels.
    pub closed spec fn size(self) -> Extent {
        self.extent
    }

    /// The bytes of the texels.
    pub closed spec fn data(self) -> Seq<u8> {
        self.texels@
    }

    /// Makes a texture of `extent` from `texels`, or says why they do not
    /// fit together.
    pub fn new(extent: Extent, texels: Vec<u8>) -> (result: Result<Texture, TextureError>)
        ensures
            match result {
                Ok(texture) => {
                    &&& texels@.len() == texel_bytes(extent)
                    &&& texture.size() == extent
                    &&& texture.data() == texels@
                },
                Err(TextureError::TooLarge) => texel_bytes(extent) > u64::MAX,
                Err(TextureError::WrongLength { expected, found }) => {
                    &&& expected == texel_bytes(extent)
                    &&& found == texels@.len()
                    &&& found != expected
                },
            },
    {
        match texture_data_size(extent) {
            None => Err(TextureError::TooLarge),
            Some(expected) => {
                let found: usize = texels.len();
                if found as u64 == expected {
                    Ok(Texture { extent, texels })
                } else {
                    Err(TextureError::WrongLength { expected, found })
                }
            },
        }
    }

    /// The width and height in texels.
    pub fn extent(&self) -> (extent: Extent)
        ensures
            extent == self.size(),
    {
        self.extent
    }

    /// The bytes of the texels, as many as the extent asks for.
    pub fn texels(&self) -> (texels: &Vec<u8>)
        ensures
            texels@ == self.data(),
            texels@.len() == texel_bytes(self.size()),
    {
        proof {
            use_type_invariant(self);
        }
        &self.texels
    }
}

} // verus!
