use vstd::prelude::*;

verus! {

/// One of the two interchangeable shapes drawn for every instance.
#[derive(Clone, Copy, Debug, PartialEq, Eq, Structural)]
pub enum Shape {
    /// Seven vertices, six triangles fanned around the centre.
    Hexagon,
    /// Four vertices, two triangles.
    Square,
}

/// The triangle-list indices of a shape.
pub open spec fn shape_indices(shape: Shape) -> Seq<u16> {
    match shape {
        Shape::Hexagon => seq![0, 1, 2, 0, 2, 3, 0, 3, 4, 0, 4, 5, 0, 5, 6, 0, 6, 1],
        Shape::Square => seq![0, 2, 3, 0, 3, 1],
    }
}

/// How many vertices a shape's vertex buffer holds.
pub open spec fn shape_vertex_count(shape: Shape) -> nat {
    match shape {
        Shape::Hexagon => 7,
        Shape::Square => 4,
    }
}

/// Number of vertices of `shape`.
pub fn vertex_count(shape: Shape) -> (r: u32)
    ensures
        r == shape_vertex_count(shape),
{
    match shape {
        Shape::Hexagon => 7,
        Shape::Square => 4,
    }
}

/// The index data of `shape`, three indices per triangle.
pub fn indices(shape: Shape) -> (r: Vec<u16>)
    ensures
        r@ == shape_indices(shape),
{
    let r: Vec<u16> = match shape {
        Shape::Hexagon => vec![0, 1, 2, 0, 2, 3, 0, 3, 4, 0, 4, 5, 0, 5, 6, 0, 6, 1],
        Shape::Square => vec![0, 2, 3, 0, 3, 1],
    };
    assert(r@ =~= shape_indices(shape));
    r
}

/// Number of indices drawn for `shape`: 18 for the hexagon, 6 for the square.
pub fn index_count(shape: Shape) -> (r: u32)
    ensures
        r == shape_indices(shape).len(),
        shape == Shape::Hexagon ==> r == 18,
        shape == Shape::Square ==> r == 6,
{
    match shape {
        Shape::Hexagon => 18,
        Shape::Square => 6,
    }
}

/// Every index of a shape names one of its vertices, and the indices form
/// whole triangles.
pub proof fn lemma_indices_well_formed(shape: Shape)
    ensures
        shape_indices(shape).len() % 3 == 0,
        forall|i: int|
            0 <= i < shape_indices(shape).len() ==> (shape_indices(shape)[i] as nat)
                < shape_vertex_count(shape),
{
    let s = shape_indices(shape);
    assert forall|i: int| 0 <= i < s.len() implies (s[i] as nat) < shape_vertex_count(shape) by {
        match shape {
            Shape::Hexagon => {
                assert(0 <= i < 18);
                assert(s[i] <= 6);
            },
            Shape::Square => {
                assert(s[i] <= 3);
            },
        }
    }
}

/// `b` holds the values of `s` two bytes each, low byte first.
pub open spec fn is_le_u16_bytes(s: Seq<u16>, b: Seq<u8>) -> bool {
    &&& b.len() == 2 * s.len()
    &&& forall|i: int|
        0 <= i < s.len() ==> b[2 * i] == s[i] % 256 && b[2 * i + 1] == s[i] / 256
}

/// `b` holds the values of `s` two bytes each, high byte first.
pub open spec fn is_be_u16_bytes(s: Seq<u16>, b: Seq<u8>) -> bool {
    &&& b.len() == 2 * s.len()
    &&& forall|i: int|
        0 <= i < s.len() ==> b[2 * i] == s[i] / 256 && b[2 * i + 1] == s[i] % 256
}

/// Relies on bytemuck::cast_slice from `u16` to `u8`: the same memory seen as
/// bytes, two per value in the machine's byte order; it cannot fail for a
/// target of alignment one.
#[verifier::external_body]
fn cast_u16_bytes(s: &[u16]) -> (r: Vec<u8>)
    ensures
        is_le_u16_bytes(s@, r@) || is_be_u16_bytes(s@, r@),
{
    bytemuck::cast_slice::<u16, u8>(s).to_vec()
}

/// The bytes uploaded to the index buffer of `shape`: each index as two bytes
/// in the machine's byte order.
pub fn index_bytes(shape: Shape) -> (r: Vec<u8>)
    ensures
        is_le_u16_bytes(shape_indices(shape), r@) || is_be_u16_bytes(shape_indices(shape), r@),
{
    let idx = indices(shape);
    cast_u16_bytes(idx.as_slice())
}

} // verus!
