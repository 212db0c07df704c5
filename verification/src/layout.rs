//! How vertex data, uniforms and the texture are laid out for the pipeline.

use vstd::prelude::*;
use crate::frame::Variant;
use crate::target::Extent;

verus! {

/// The type of one vertex attribute.
#[derive(Clone, Copy, Debug, PartialEq, Eq, Structural)]
pub enum AttributeFormat {
    /// Two 32-bit floats.
    Float32x2,
    /// Three 32-bit floats.
    Float32x3,
}

impl AttributeFormat {
    /// The number of bytes a value of this format takes.
    pub open spec fn size(self) -> nat {
        match self {
            AttributeFormat::Float32x2 => 8,
            AttributeFormat::Float32x3 => 12,
        }
    }

    /// The number of bytes a value of this format takes.
    pub fn byte_size(self) -> (size: u64)
        ensures
            size == self.size(),
    {
        match self {
            AttributeFormat::Float32x2 => 8,
            AttributeFormat::Float32x3 => 12,
        }
    }
}

/// One attribute of a vertex: where the vertex stage finds it.
#[derive(Clone, Copy, Debug, PartialEq, Eq, Structural)]
pub struct VertexAttribute {
    /// The input location in the vertex stage.
    pub location: u32,
    /// The offset in bytes from the start of the vertex.
    pub offset: u64,
    pub format: AttributeFormat,
}

/// The layout of one vertex in the vertex buffer.
#[derive(Debug)]
pub struct VertexLayout {
    /// The distance in bytes from one vertex to the next.
    pub stride: u64,
    /// The attributes, in the order of their locations.
    pub attributes: Vec<VertexAttribute>,
}

/// The alignment of a vertex in bytes.
pub const VERTEX_ALIGN: u64 = 16;

/// The distance in bytes from one vertex to the next, for either variant.
pub const VERTEX_STRIDE: u64 = 32;

/// The number of bytes that values of `formats` take when packed one after
/// the other.
pub open spec fn packed_size(formats: Seq<AttributeFormat>) -> nat
    decreases formats.len(),
{
    if formats.len() == 0 {
        0
    } else {
        packed_size(formats.drop_last()) + formats.last().size()
    }
}

/// The least multiple of `VERTEX_ALIGN` that is not less than `size`.
pub open spec fn aligned(size: nat) -> nat {
    (((size + VERTEX_ALIGN - 1) / (VERTEX_ALIGN as int)) * VERTEX_ALIGN) as nat
}

/// The attribute at place `i` of a vertex made of `formats`: its location is
/// its place, its offset the packed size of those before it.
pub open spec fn attribute_at(formats: Seq<AttributeFormat>, i: int) -> VertexAttribute {
    VertexAttribute {
        location: i as u32,
        offset: packed_size(formats.take(i)) as u64,
        format: formats[i],
    }
}

/// The attributes of a vertex made of `formats`.
pub open spec fn attributes_of(formats: Seq<AttributeFormat>) -> Seq<VertexAttribute> {
    Seq::new(formats.len(), |i: int| attribute_at(formats, i))
}

/// The formats of a vertex: position and texture coordinate, and for the
/// shell variant the normal along which the layers are pushed out.
pub open spec fn formats_of(variant: Variant) -> Seq<AttributeFormat> {
    match variant {
        Variant::Base => seq![AttributeFormat::Float32x3, AttributeFormat::Float32x2],
        Variant::Shell => seq![
            AttributeFormat::Float32x3,
            AttributeFormat::Float32x2,
            AttributeFormat::Float32x3,
        ],
    }
}

/// Packed attributes take at most twelve bytes each.
pub proof fn lemma_packed_size_bound(formats: Seq<AttributeFormat>)
    ensures
        packed_size(formats) <= 12 * formats.len(),
    decreases formats.len(),
{
    if formats.len() > 0 {
        lemma_packed_size_bound(formats.drop_last());
    }
}

/// `aligned(size)` is a multiple of the alignment, not less than `size`, and
/// less than one alignment above it.
pub proof fn lemma_aligned_is_least_multiple(size: nat)
    ensures
        aligned(size) % (VERTEX_ALIGN as nat) == 0,
        size <= aligned(size) < size + VERTEX_ALIGN,
{
    let q = (size + 15) / 16;
    assert(aligned(size) == q * 16);
    assert((q * 16) % 16 == 0) by (nonlinear_arith);
}

/// Lays out a vertex made of `formats`, tightly packed and padded to the
/// alignment. There is no layout for more attributes than locations can
/// number.
pub fn pack(formats: &Vec<AttributeFormat>) -> (layout: Option<VertexLayout>)
    ensures
        formats.len() <= u32::MAX <==> layout is Some,
        layout matches Some(l) ==> {
            &&& l.attributes@ == attributes_of(formats@)
            &&& l.stride == aligned(packed_size(formats@))
        },
{
    if formats.len() > 0xffff_ffff {
        return None;
    }
    let mut attributes: Vec<VertexAttribute> = Vec::new();
    let mut offset: u64 = 0;
    let mut i: usize = 0;
    while i < formats.len()
        invariant
            i <= formats.len() <= u32::MAX,
            offset == packed_size(formats@.take(i as int)),
            attributes@.len() == i,
            forall|k: int| 0 <= k < i ==> attributes@[k] == attribute_at(formats@, k),
        decreases formats.len() - i,
    {
        let format = formats[i];
        proof {
            lemma_packed_size_bound(formats@.take(i as int));
            assert(formats@.take(i + 1).drop_last() == formats@.take(i as int));
        }
        attributes.push(VertexAttribute { location: i as u32, offset, format });
        offset = offset + format.byte_size();
        i += 1;
    }
    proof {
        assert(formats@.take(formats.len() as int) == formats@);
        lemma_packed_size_bound(formats@);
        assert(attributes@ =~= attributes_of(formats@));
    }
    let stride: u64 = ((offset + (VERTEX_ALIGN - 1)) / VERTEX_ALIGN) * VERTEX_ALIGN;
    Some(VertexLayout { stride, attributes })
}

/// The layout of the vertices of `variant`: 32 bytes each, the position at
/// offset 0, the texture coordinate at 12 and, for the shell variant, the
/// normal at 20.
pub fn vertex_layout(variant: Variant) -> (layout: VertexLayout)
    ensures
        layout.attributes@ == attributes_of(formats_of(variant)),
        layout.stride == aligned(packed_size(formats_of(variant))),
        layout.stride == VERTEX_STRIDE,
        layout.attributes@.len() == formats_of(variant).len(),
        layout.attributes@[0] == (VertexAttribute {
            location: 0,
            offset: 0,
            format: AttributeFormat::Float32x3,
        }),
        layout.attributes@[1] == (VertexAttribute {
            location: 1,
            offset: 12,
            format: AttributeFormat::Float32x2,
        }),
        variant == Variant::Shell ==> layout.attributes@[2] == (VertexAttribute {
            location: 2,
            offset: 20,
            format: AttributeFormat::Float32x3,
        }),
{
    let mut formats: Vec<AttributeFormat> = Vec::new();
    formats.push(AttributeFormat::Float32x3);
    formats.push(AttributeFormat::Float32x2);
    match variant {
        Variant::Base => {},
        Variant::Shell => {
            formats.push(AttributeFormat::Float32x3);
        },
    }
    proof {
        assert(formats@ =~= formats_of(variant));
        lemma_variant_sizes(variant);
    }
    pack(&formats).unwrap()
}

/// The packed sizes of the vertex formats and of what precedes each
/// attribute.
pub proof fn lemma_variant_sizes(variant: Variant)
    ensures
        packed_size(formats_of(variant).take(0)) == 0,
        packed_size(formats_of(variant).take(1)) == 12,
        packed_size(formats_of(variant).take(2)) == 20,
        packed_size(formats_of(variant)) == (if variant == Variant::Base {
            20nat
        } else {
            32nat
        }),
        aligned(packed_size(formats_of(variant))) == 32,
{
    let formats = formats_of(variant);
    let one = formats.take(1);
    let two = formats.take(2);
    assert(one.drop_last() =~= formats.take(0));
    assert(two.drop_last() =~= one);
    assert(packed_size(formats.take(0)) == 0);
    assert(packed_size(one) == 12);
    assert(packed_size(two) == 20);
    if variant == Variant::Base {
        assert(formats =~= two);
    } else {
        assert(formats.drop_last() =~= two);
    }
}

} // verus!
