//! The ground: one thin quad, drawn many times at growing distance.

use vstd::prelude::*;
use crate::bytes::is_u16_image;
use crate::bytes::u16_image;
use crate::primitives::instance::identity_rotation;
use crate::primitives::instance::Instance;
use crate::primitives::instance::Quaternion;
use crate::primitives::vertex::vertex_layout;
use crate::primitives::vertex::Color;
use crate::primitives::vertex::Vector3;
use crate::primitives::vertex::Vertex;
use crate::primitives::vertex::VertexLayout;
use crate::primitives::vertex::UNIT;

verus! {

/// How many copies of the quad are drawn.
pub const NUM_INSTANCES: u32 = 20;

/// The distance, in world units, over which the copies recede.
pub const DEPTH_SPAN: i32 = 30;

/// Half the width of the quad, in thousandths.
pub const HALF_WIDTH: i32 = 100_000;

/// Half the depth of the quad, in thousandths.
pub const HALF_DEPTH: i32 = 100;

/// The four corners of the quad: the near edge green, the far edge blue.
pub open spec fn quad_vertices() -> Seq<Vertex> {
    seq![
        Vertex {
            position: Vector3 { x: (-100_000) as i32, y: 0, z: 100 },
            color: Color { r: 0, g: 1000, b: 0 },
        },
        Vertex {
            position: Vector3 { x: 100_000, y: 0, z: 100 },
            color: Color { r: 0, g: 1000, b: 0 },
        },
        Vertex {
            position: Vector3 { x: 100_000, y: 0, z: (-100) as i32 },
            color: Color { r: 0, g: 0, b: 1000 },
        },
        Vertex {
            position: Vector3 { x: (-100_000) as i32, y: 0, z: (-100) as i32 },
            color: Color { r: 0, g: 0, b: 1000 },
        },
    ]
}

/// The two triangles of the quad, as indices into `quad_vertices`.
pub open spec fn quad_indices() -> Seq<u16> {
    seq![0u16, 1u16, 2u16, 0u16, 2u16, 3u16]
}

/// The offset of copy `index` out of `count` along the receding axis, in
/// thousandths: minus `index / count` of the depth span.
pub open spec fn instance_depth(index: int, count: int) -> int {
    -((index * DEPTH_SPAN * UNIT) / count)
}

/// Copy `index` out of `count`: on the axis, unturned, at its depth.
pub open spec fn instance_at(index: int, count: int) -> Instance {
    Instance {
        position: Vector3 { x: 0, y: 0, z: instance_depth(index, count) as i32 },
        rotation: identity_rotation(),
    }
}

/// All `count` copies, nearest first.
pub open spec fn instance_table(count: nat) -> Seq<Instance> {
    Seq::new(count, |index: int| instance_at(index, count as int))
}

/// Twice the signed area, seen from above, of the triangle `a`, `b`, `c`.
pub open spec fn doubled_area(a: Vector3, b: Vector3, c: Vector3) -> int {
    (b.x - a.x) * (c.z - a.z) - (c.x - a.x) * (b.z - a.z)
}

/// Twice the signed area of triangle `which` of an indexed mesh.
pub open spec fn triangle_doubled_area(
    vertices: Seq<Vertex>,
    indices: Seq<u16>,
    which: int,
) -> int {
    doubled_area(
        vertices[indices[3 * which] as int].position,
        vertices[indices[3 * which + 1] as int].position,
        vertices[indices[3 * which + 2] as int].position,
    )
}

/// The index and instance ranges of the one draw call of a frame.
#[derive(Debug, Clone, Copy, PartialEq, Eq)]
pub struct DrawCall {
    pub first_index: u32,
    pub end_index: u32,
    pub base_vertex: i32,
    pub first_instance: u32,
    pub end_instance: u32,
}

/// The quad, its indices and the table of its copies, as they are uploaded
/// once at startup.
pub struct Ground {
    pub vertices: Vec<Vertex>,
    pub layout: VertexLayout,
    pub num_vertices: u32,
    pub indices: Vec<u16>,
    pub index_data: Vec<u8>,
    pub num_indices: u32,
    pub instances: Vec<Instance>,
}

impl Ground {
    /// The mesh is the quad, the counts match the data, and the index data is
    /// the memory image of the indices. Nothing is asked of the number of
    /// copies but that it can be counted.
    pub open spec fn wf(&self) -> bool {
        &&& self.vertices@ == quad_vertices()
        &&& self.layout == vertex_layout()
        &&& self.num_vertices == self.vertices@.len()
        &&& self.indices@ == quad_indices()
        &&& is_u16_image(self.index_data@, self.indices@)
        &&& self.num_indices == self.indices@.len()
        &&& self.instances@.len() <= u32::MAX
    }

    /// Builds the quad and its `NUM_INSTANCES` copies.
    pub fn init() -> (ground: Ground)
        ensures
            ground.wf(),
            ground.instances@ == instance_table(NUM_INSTANCES as nat),
    {
        let mut vertices: Vec<Vertex> = Vec::new();
        vertices.push(
            Vertex {
                position: Vector3 { x: -HALF_WIDTH, y: 0, z: HALF_DEPTH },
                color: Color { r: 0, g: UNIT, b: 0 },
            },
        );
        vertices.push(
            Vertex {
                position: Vector3 { x: HALF_WIDTH, y: 0, z: HALF_DEPTH },
                color: Color { r: 0, g: UNIT, b: 0 },
            },
        );
        vertices.push(
            Vertex {
                position: Vector3 { x: HALF_WIDTH, y: 0, z: -HALF_DEPTH },
                color: Color { r: 0, g: 0, b: UNIT },
            },
        );
        vertices.push(
            Vertex {
                position: Vector3 { x: -HALF_WIDTH, y: 0, z: -HALF_DEPTH },
                color: Color { r: 0, g: 0, b: UNIT },
            },
        );
        assert(vertices@ =~= quad_vertices());

        let mut indices: Vec<u16> = Vec::new();
        indices.push(0);
        indices.push(1);
        indices.push(2);
        indices.push(0);
        indices.push(2);
        indices.push(3);
        assert(indices@ =~= quad_indices());
        let index_data = u16_image(&indices);

        let mut instances: Vec<Instance> = Vec::new();
        let mut i: u32 = 0;
        while i < NUM_INSTANCES
            invariant
                i <= NUM_INSTANCES,
                instances@ == instance_table(NUM_INSTANCES as nat).take(i as int),
            decreases NUM_INSTANCES - i,
        {
            let scaled: i32 = (i as i32) * DEPTH_SPAN * UNIT;
            let depth: i32 = -(scaled / (NUM_INSTANCES as i32));
            let position = Vector3 { x: 0, y: 0, z: depth };
            let rotation = Quaternion::identity();
            instances.push(Instance { position, rotation });
            i = i + 1;
            assert(instances@ =~= instance_table(NUM_INSTANCES as nat).take(i as int));
        }
        assert(instances@ =~= instance_table(NUM_INSTANCES as nat));

        Ground {
            vertices,
            layout: Vertex::layout(),
            num_vertices: 4,
            indices,
            index_data,
            num_indices: 6,
            instances,
        }
    }

    /// The draw call that covers every index and every copy.
    pub fn draw_call(&self) -> (call: DrawCall)
        requires
            self.wf(),
        ensures
            call.first_index == 0,
            call.end_index == self.indices@.len(),
            call.base_vertex == 0,
            call.first_instance == 0,
            call.end_instance == self.instances@.len(),
    {
        DrawCall {
            first_index: 0,
            end_index: self.num_indices,
            base_vertex: 0,
            first_instance: 0,
            end_instance: self.instances.len() as u32,
        }
    }
}

/// Copy `index` of the `NUM_INSTANCES` copies stands exactly `index / 20` of
/// the depth span behind the first, which stands at the origin; every copy
/// lies on the axis and is unturned.
pub proof fn lemma_instance_spacing(index: int)
    requires
        0 <= index < NUM_INSTANCES,
    ensures
        instance_table(NUM_INSTANCES as nat)[index].position.z * NUM_INSTANCES == -(index
            * DEPTH_SPAN * UNIT),
        instance_table(NUM_INSTANCES as nat)[index].position.x == 0,
        instance_table(NUM_INSTANCES as nat)[index].position.y == 0,
        instance_table(NUM_INSTANCES as nat)[index].rotation == identity_rotation(),
        instance_table(NUM_INSTANCES as nat)[0].position.z == 0,
        instance_table(NUM_INSTANCES as nat)[19].position.z == -28_500,
{
}

/// However many copies a ground has, its mesh is four vertices and six
/// indices: two triangles that share the diagonal from corner 0 to corner 2,
/// wind the same way, and together have the area of the whole quad.
pub proof fn lemma_quad_geometry(ground: Ground)
    requires
        ground.wf(),
    ensures
        ground.num_vertices == 4,
        ground.vertices@.len() == 4,
        ground.num_indices == 6,
        ground.indices@.len() == 6,
        ground.index_data@.len() == 12,
        forall|k: int| 0 <= k < 6 ==> (#[trigger] ground.indices@[k]) < ground.num_vertices,
        forall|v: u16| v < 4 ==> #[trigger] ground.indices@.contains(v),
        ground.indices@[0] == ground.indices@[3],
        ground.indices@[2] == ground.indices@[4],
        forall|v: int| 0 <= v < 4 ==> (#[trigger] ground.vertices@[v]).position.y == 0,
        triangle_doubled_area(ground.vertices@, ground.indices@, 0) < 0,
        triangle_doubled_area(ground.vertices@, ground.indices@, 1) < 0,
        triangle_doubled_area(ground.vertices@, ground.indices@, 0) + triangle_doubled_area(
            ground.vertices@,
            ground.indices@,
            1,
        ) == -2 * (2 * HALF_WIDTH) * (2 * HALF_DEPTH),
{
    let indices = ground.indices@;
    assert(indices[0] == 0 && indices[1] == 1 && indices[2] == 2 && indices[3] == 0 && indices[4]
        == 2 && indices[5] == 3);
    let corners = ground.vertices@;
    assert(corners[0].position == Vector3 { x: (-100_000) as i32, y: 0, z: 100 });
    assert(corners[1].position == Vector3 { x: 100_000, y: 0, z: 100 });
    assert(corners[2].position == Vector3 { x: 100_000, y: 0, z: (-100) as i32 });
    assert(corners[3].position == Vector3 { x: (-100_000) as i32, y: 0, z: (-100) as i32 });
    assert(200_000 * (-200) - 200_000 * 0 == -40_000_000) by (nonlinear_arith);
    assert(200_000 * (-200) - 0 * (-200) == -40_000_000) by (nonlinear_arith);
    assert(-2 * (2 * 100_000) * (2 * 100) == -80_000_000) by (nonlinear_arith);
    assert(triangle_doubled_area(corners, indices, 0) == -40_000_000);
    assert(triangle_doubled_area(corners, indices, 1) == -40_000_000);
    assert forall|v: u16| v < 4 implies #[trigger] indices.contains(v) by {
        if v == 0 {
            assert(indices[0] == v);
        } else if v == 1 {
            assert(indices[1] == v);
        } else if v == 2 {
            assert(indices[2] == v);
        } else {
            assert(indices[5] == v);
        }
    }
}

} // verus!
