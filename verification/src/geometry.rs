//! The static render geometry: textured rectangles, their vertex and index
//! data, and the immutable resource bundle the submission loop draws from.
//!
//! Coordinates are fixed-point: one clip-space unit is `COORD_ONE`
//! hundredths, so a rectangle at (-0.8, -0.8) of size 0.2 x 0.2 is written
//! with x = -80, y = -80, width = 20, height = 20. A renderer divides by
//! `COORD_ONE` when it uploads the vertex buffer.

use vstd::prelude::*;

verus! {

/// Hundredths of a clip-space (or texture-space) unit per unit.
pub const COORD_ONE: i32 = 100;

/// One vertex: a clip-space position, a texture coordinate, and the index
/// of the texture layer the fragment stage samples.
#[derive(Clone, Copy, PartialEq, Eq, Structural, Debug)]
pub struct Vertex {
    pub x: i32,
    pub y: i32,
    pub tex_u: i32,
    pub tex_v: i32,
    pub texture_index: u32,
}

/// An axis-aligned textured rectangle, the one primitive this engine draws.
#[derive(Clone, Copy, PartialEq, Eq, Structural, Debug)]
pub struct Rect {
    pub x: i32,
    pub y: i32,
    pub width: i32,
    pub height: i32,
    pub tex_index: u32,
}

impl Rect {
    /// Sizes are non-negative and the far corner stays representable.
    pub open spec fn wf(self) -> bool {
        &&& 0 <= self.width
        &&& 0 <= self.height
        &&& self.x + self.width <= i32::MAX
        &&& self.y + self.height <= i32::MAX
    }

    pub fn new(x: i32, y: i32, width: i32, height: i32, tex_index: u32) -> (r: Rect)
        ensures
            r == (Rect { x, y, width, height, tex_index }),
    {
        Rect { x, y, width, height, tex_index }
    }

    /// The rectangle's four corners, counter-clockwise from the near
    /// corner, each carrying the matching corner of the texture and the
    /// rectangle's texture layer.
    pub open spec fn spec_vertices(self) -> Seq<Vertex>
        recommends
            self.wf(),
    {
        seq![
            Vertex { x: self.x, y: self.y, tex_u: 0, tex_v: 0, texture_index: self.tex_index },
            Vertex {
                x: (self.x + self.width) as i32,
                y: self.y,
                tex_u: COORD_ONE,
                tex_v: 0,
                texture_index: self.tex_index,
            },
            Vertex {
                x: (self.x + self.width) as i32,
                y: (self.y + self.height) as i32,
                tex_u: COORD_ONE,
                tex_v: COORD_ONE,
                texture_index: self.tex_index,
            },
            Vertex {
                x: self.x,
                y: (self.y + self.height) as i32,
                tex_u: 0,
                tex_v: COORD_ONE,
                texture_index: self.tex_index,
            },
        ]
    }

    /// The four corner vertices of this rectangle.
    pub fn vertices(&self) -> (vs: [Vertex; 4])
        requires
            self.wf(),
        ensures
            vs@ == self.spec_vertices(),
    {
        let far_x: i32 = self.x + self.width;
        let far_y: i32 = self.y + self.height;
        let vs = [
            Vertex { x: self.x, y: self.y, tex_u: 0, tex_v: 0, texture_index: self.tex_index },
            Vertex { x: far_x, y: self.y, tex_u: COORD_ONE, tex_v: 0, texture_index: self.tex_index },
            Vertex {
                x: far_x,
                y: far_y,
                tex_u: COORD_ONE,
                tex_v: COORD_ONE,
                texture_index: self.tex_index,
            },
            Vertex { x: self.x, y: far_y, tex_u: 0, tex_v: COORD_ONE, texture_index: self.tex_index },
        ];
        proof {
            assert(vs@ =~= self.spec_vertices());
        }
        vs
    }

    /// The six indices that draw the rectangle standing in slot `slot` of a
    /// scene as two triangles: its four vertices occupy positions
    /// 4*slot .. 4*slot+4 of the vertex buffer.
    pub fn indices(&self, slot: u16) -> (ix: [u16; 6])
        requires
            slot <= u16::MAX / 4,
        ensures
            ix@ == spec_rect_indices(slot),
    {
        let start: u16 = slot * 4;
        let ix = [start, start + 1, start + 2, start + 2, start + 3, start];
        proof {
            assert(ix@ =~= spec_rect_indices(slot));
        }
        ix
    }
}

/// The index pattern for the rectangle in slot `slot`: two triangles over
/// its four vertices.
pub open spec fn spec_rect_indices(slot: u16) -> Seq<u16>
    recommends
        slot <= u16::MAX / 4,
{
    let start = (4 * slot) as u16;
    seq![
        start,
        (start + 1) as u16,
        (start + 2) as u16,
        (start + 2) as u16,
        (start + 3) as u16,
        start,
    ]
}

/// The vertex buffer of a scene: the rectangles' corner vertices,
/// concatenated in scene order.
pub open spec fn scene_vertices(rects: Seq<Rect>) -> Seq<Vertex>
    decreases rects.len(),
{
    if rects.len() == 0 {
        Seq::empty()
    } else {
        scene_vertices(rects.drop_last()) + rects.last().spec_vertices()
    }
}

/// The index buffer of a scene of `n` rectangles: the per-slot index
/// patterns, concatenated in slot order.
pub open spec fn scene_indices(n: nat) -> Seq<u16>
    decreases n,
{
    if n == 0 {
        Seq::empty()
    } else {
        scene_indices((n - 1) as nat) + spec_rect_indices((n - 1) as u16)
    }
}

/// The immutable resources the submission loop draws from on every tick:
/// the vertex and index buffers of the scene and the number of texture
/// layers bound in the single descriptor set. Created once; never mutated.
pub struct StaticResources {
    pub vertices: Vec<Vertex>,
    pub indices: Vec<u16>,
    pub texture_layers: usize,
}

impl StaticResources {
    /// Build the resource bundle for a scene: the concatenated vertex and
    /// index buffers of `rects`, drawn against a descriptor set of
    /// `texture_layers` texture layers. Every rectangle's texture index
    /// must name one of those layers.
    pub fn build(rects: &Vec<Rect>, texture_layers: usize) -> (res: StaticResources)
        requires
            rects.len() <= u16::MAX / 4,
            forall|i: int| 0 <= i < rects.len() ==> (#[trigger] rects[i]).wf(),
            forall|i: int|
                0 <= i < rects.len() ==> (#[trigger] rects[i]).tex_index < texture_layers,
        ensures
            res.vertices@ == scene_vertices(rects@),
            res.indices@ == scene_indices(rects@.len() as nat),
            res.texture_layers == texture_layers,
            res.vertices.len() == 4 * rects.len(),
            res.indices.len() == 6 * rects.len(),
    {
        let mut vertices: Vec<Vertex> = Vec::new();
        let mut indices: Vec<u16> = Vec::new();
        let mut i: usize = 0;
        while i < rects.len()
            invariant
                i <= rects.len(),
                rects.len() <= u16::MAX / 4,
                forall|k: int| 0 <= k < rects.len() ==> (#[trigger] rects[k]).wf(),
                vertices@ == scene_vertices(rects@.take(i as int)),
                indices@ == scene_indices(i as nat),
                vertices.len() == 4 * i,
                indices.len() == 6 * i,
            decreases rects.len() - i,
        {
            let vs = rects[i].vertices();
            vertices.push(vs[0]);
            vertices.push(vs[1]);
            vertices.push(vs[2]);
            vertices.push(vs[3]);
            let ix = rects[i].indices(i as u16);
            indices.push(ix[0]);
            indices.push(ix[1]);
            indices.push(ix[2]);
            indices.push(ix[3]);
            indices.push(ix[4]);
            indices.push(ix[5]);
            proof {
                let taken = rects@.take(i + 1 as int);
                assert(taken.drop_last() =~= rects@.take(i as int));
                assert(taken.last() == rects@[i as int]);
                assert(vertices@ =~= scene_vertices(taken));
                assert(indices@ =~= scene_indices((i + 1) as nat));
            }
            i = i + 1;
        }
        proof {
            assert(rects@.take(rects@.len() as int) =~= rects@);
        }
        StaticResources { vertices, indices, texture_layers }
    }
}

} // verus!
