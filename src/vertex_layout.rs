use vstd::arithmetic::div_mod::{lemma_fundamental_div_mod, lemma_mod_multiples_basic};
use vstd::prelude::*;

verus! {

/// Two 32-bit floats per element.
pub const FORMAT_R32G32_SFLOAT: u32 = 103;

/// Three 32-bit floats per element.
pub const FORMAT_R32G32B32_SFLOAT: u32 = 106;

/// The next vertex's data is read for each vertex, not for each instance.
pub const VERTEX_INPUT_RATE_VERTEX: u32 = 0;

/// Where the vertex buffer is bound and how far apart its vertices lie.
#[derive(Clone, Copy, Debug, PartialEq, Eq, Structural)]
pub struct VertexBinding {
    pub binding: u32,
    pub stride: u32,
    pub input_rate: u32,
}

/// Where one of the vertex shader's inputs lies in a vertex.
#[derive(Clone, Copy, Debug, PartialEq, Eq, Structural)]
pub struct VertexAttribute {
    pub binding: u32,
    pub location: u32,
    pub format: u32,
    pub offset: u32,
}

/// The least multiple of `alignment` that is at least `offset`.
pub fn align_up(offset: usize, alignment: usize) -> (r: usize)
    requires
        alignment > 0,
        offset + alignment <= usize::MAX,
    ensures
        r % alignment == 0,
        offset <= r < offset + alignment,
{
    let rem = offset % alignment;
    if rem == 0 {
        offset
    } else {
        let r = offset + (alignment - rem);
        proof {
            let a = alignment as int;
            let q = offset as int / a;
            lemma_fundamental_div_mod(offset as int, a);
            assert(r == (q + 1) * a) by (nonlinear_arith)
                requires
                    offset == a * q + rem,
                    r == offset + (a - rem),
            ;
            lemma_mod_multiples_basic(q + 1, a);
        }
        r
    }
}

/// The vertex buffer's binding: binding 0, one vertex per `stride` bytes.
pub fn vertex_binding_description(stride: u32) -> (r: VertexBinding)
    ensures
        r == (VertexBinding { binding: 0, stride, input_rate: VERTEX_INPUT_RATE_VERTEX }),
{
    VertexBinding { binding: 0, stride, input_rate: VERTEX_INPUT_RATE_VERTEX }
}

/// The vertex shader's inputs: the 2D position at location 0 and the RGB
/// color at location 1, both read from binding 0 at the given offsets.
pub fn vertex_attribute_descriptions(pos_offset: u32, color_offset: u32) -> (r: Vec<
    VertexAttribute,
>)
    ensures
        r@ == seq![
            VertexAttribute {
                binding: 0,
                location: 0,
                format: FORMAT_R32G32_SFLOAT,
                offset: pos_offset,
            },
            VertexAttribute {
                binding: 0,
                location: 1,
                format: FORMAT_R32G32B32_SFLOAT,
                offset: color_offset,
            },
        ],
{
    let mut r: Vec<VertexAttribute> = Vec::new();
    r.push(VertexAttribute { binding: 0, location: 0, format: FORMAT_R32G32_SFLOAT, offset: pos_offset });
    r.push(
        VertexAttribute {
            binding: 0,
            location: 1,
            format: FORMAT_R32G32B32_SFLOAT,
            offset: color_offset,
        },
    );
    assert(r@ =~= seq![
        VertexAttribute {
            binding: 0,
            location: 0,
            format: FORMAT_R32G32_SFLOAT,
            offset: pos_offset,
        },
        VertexAttribute {
            binding: 0,
            location: 1,
            format: FORMAT_R32G32B32_SFLOAT,
            offset: color_offset,
        },
    ]);
    r
}

} // verus!
