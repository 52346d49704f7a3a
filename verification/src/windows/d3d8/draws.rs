//! What a draw asks for, checked before anything is rasterised: the
//! vertices of a `DrawPrimitiveUP`, and the triangles, vertex keys and
//! texture pixels of a `DrawIndexedPrimitive`.
use super::device::{buffer_placed, level_placed, texture_placed, Graphics};
use super::objects::{DEVICE, MAX_PRIMITIVES, MAX_STRIDE};
use super::state::device_call;
use crate::cpu::operands::memory_value;
use crate::memory::{Access, GuestMemory, MemoryError};
use std::collections::BTreeMap;
use vstd::prelude::*;

verus! {

broadcast use vstd::std_specs::btree::group_btree_axioms;

/// The bytes of a transformed vertex with a diffuse colour.
pub const VERTEX_SIZE: u32 = 20;

/// The vertex layout that `DrawPrimitiveUP` draws: transformed positions
/// and a diffuse colour.
pub const TRANSFORMED_DIFFUSE: u32 = 0x44;

/// The vertices that `count` primitives of `topology` use: three each for
/// a list (4), two more than the count for a strip (5) or a fan (6).
pub open spec fn vertex_count(topology: u32, count: u32) -> int {
    if topology == 4 {
        3 * count
    } else {
        count + 2
    }
}

/// The vertices of primitive `primitive` of `topology`: consecutive
/// triples for a list, a strip with every other triangle turned round, a
/// fan around vertex 0.
pub open spec fn primitive_vertices(topology: u32, primitive: int) -> Seq<int> {
    if topology == 4 {
        seq![3 * primitive, 3 * primitive + 1, 3 * primitive + 2]
    } else if topology == 5 && primitive % 2 == 0 {
        seq![primitive, primitive + 1, primitive + 2]
    } else if topology == 5 {
        seq![primitive + 1, primitive, primitive + 2]
    } else {
        seq![0, primitive + 1, primitive + 2]
    }
}

/// The triangles of a fan (6) all share vertex 0; each one's other two
/// vertices are consecutive, and each triangle shares its last edge with
/// the next, so the fan starts with vertices 0, 1, 2.
pub proof fn law_fan_triangles(primitive: int)
    requires
        primitive >= 0,
    ensures
        primitive_vertices(6, primitive).len() == 3,
        primitive_vertices(6, primitive)[0] == 0,
        primitive_vertices(6, primitive)[2] == primitive_vertices(6, primitive)[1] + 1,
        primitive_vertices(6, primitive + 1)[0] == primitive_vertices(6, primitive)[0],
        primitive_vertices(6, primitive + 1)[1] == primitive_vertices(6, primitive)[2],
        primitive_vertices(6, 0) == seq![0int, 1, 2],
{
}

/// Each triangle of a strip (5) is made of the three vertices from
/// `primitive` on, so that it shares two with the triangle before; the new
/// vertex `primitive + 2` comes last, and the winding of the other two
/// turns round every other triangle, the first being 0, 1, 2.
pub proof fn law_strip_triangles(primitive: int)
    requires
        primitive >= 0,
    ensures
        primitive_vertices(5, primitive).len() == 3,
        primitive_vertices(5, primitive).to_set() == set![primitive, primitive + 1, primitive + 2],
        primitive_vertices(5, primitive)[2] == primitive + 2,
        (primitive_vertices(5, primitive)[0] < primitive_vertices(5, primitive)[1]) == (primitive
            % 2 == 0),
        primitive_vertices(5, 0) == seq![0int, 1, 2],
{
    let vertices = primitive_vertices(5, primitive);
    assert(vertices.to_set() =~= set![primitive, primitive + 1, primitive + 2]) by {
        assert(vertices.to_set().contains(vertices[0]));
        assert(vertices.to_set().contains(vertices[1]));
        assert(vertices.to_set().contains(vertices[2]));
    }
}

/// The triangles of a list (4) take the vertices in order, three fresh
/// consecutive ones each, the first triangle starting at vertex 0.
pub proof fn law_list_triangles(primitive: int)
    requires
        primitive >= 0,
    ensures
        primitive_vertices(4, primitive).len() == 3,
        primitive_vertices(4, primitive)[1] == primitive_vertices(4, primitive)[0] + 1,
        primitive_vertices(4, primitive)[2] == primitive_vertices(4, primitive)[1] + 1,
        primitive_vertices(4, primitive + 1)[0] == primitive_vertices(4, primitive)[2] + 1,
        primitive_vertices(4, 0)[0] == 0,
{
}

/// Every vertex of the first `count` primitives of a list, strip or fan is
/// one of the `vertex_count` vertices the draw reads, and the last of
/// those primitives ends with the last of them.
pub proof fn law_primitives_use_counted_vertices(topology: u32, count: u32, primitive: int)
    requires
        4 <= topology <= 6,
        0 <= primitive < count,
    ensures
        forall|j: int|
            0 <= j < 3 ==> 0 <= #[trigger] primitive_vertices(topology, primitive)[j]
                < vertex_count(topology, count),
        primitive == count - 1 ==> primitive_vertices(topology, primitive)[2] == vertex_count(
            topology,
            count,
        ) - 1,
{
}

/// The vertices of primitive `primitive` of a list (4), strip (5) or fan
/// (6).
pub fn primitive_indices(topology: u32, primitive: usize) -> (indices: [usize; 3])
    requires
        4 <= topology <= 6,
        primitive <= MAX_PRIMITIVES,
    ensures
        indices@ == primitive_vertices(topology, primitive as int).map_values(|i: int| i as usize),
{
    let indices = if topology == 4 {
        [primitive * 3, primitive * 3 + 1, primitive * 3 + 2]
    } else if topology == 5 && primitive % 2 == 0 {
        [primitive, primitive + 1, primitive + 2]
    } else if topology == 5 {
        [primitive + 1, primitive, primitive + 2]
    } else {
        [0, primitive + 1, primitive + 2]
    };
    assert(indices@ =~= primitive_vertices(topology, primitive as int).map_values(
        |i: int| i as usize,
    ));
    indices
}

/// A `DrawPrimitiveUP(topology, count, pointer, stride)` that passed its
/// checks: the vertices are `vertices` records of `stride` bytes from
/// `pointer`.
#[derive(Clone, Copy, Debug, PartialEq, Eq, Structural)]
pub struct UpDraw {
    pub topology: u32,
    pub count: u32,
    pub pointer: u32,
    pub stride: u32,
    pub vertices: u32,
}

/// What a `DrawPrimitiveUP` asks for.
#[derive(Clone, Copy, Debug, PartialEq, Eq, Structural)]
pub enum UpRequest {
    /// The call is refused.
    Refused,
    /// There is nothing to draw.
    Nothing,
    /// Vertices are to be read and drawn.
    Draw(UpDraw),
}

/// Whether `DrawPrimitiveUP` with `arguments = [device, topology, count,
/// pointer, stride]` is refused: no device, render target or viewport, a
/// vertex layout other than transformed positions with a colour, an
/// unknown topology, too many primitives, a stride too small or too large,
/// primitives without vertices, or vertices past the end of the address
/// space.
pub open spec fn up_refused(graphics: Graphics, arguments: Seq<u32>) -> bool {
    let (topology, count, pointer, stride) = (arguments[1], arguments[2], arguments[3], arguments[4]);
    ||| !device_call(graphics, arguments[0])
    ||| graphics.back is None
    ||| graphics.viewport is None
    ||| graphics.vertex_fvf != TRANSFORMED_DIFFUSE
    ||| !(4 <= topology <= 6)
    ||| count > MAX_PRIMITIVES
    ||| !(VERTEX_SIZE <= stride <= MAX_STRIDE)
    ||| (count != 0 && pointer == 0)
    ||| (count != 0 && pointer + (vertex_count(topology, count) - 1) * stride + VERTEX_SIZE
        > 0x1_0000_0000)
}

impl Graphics {
    /// Checks a `DrawPrimitiveUP(topology, count, pointer, stride)`.
    pub fn up_request(&self, arguments: &[u32]) -> (request: UpRequest)
        requires
            arguments@.len() == 5,
        ensures
            request == if up_refused(*self, arguments@) {
                UpRequest::Refused
            } else if arguments@[2] == 0 {
                UpRequest::Nothing
            } else {
                UpRequest::Draw(
                    UpDraw {
                        topology: arguments@[1],
                        count: arguments@[2],
                        pointer: arguments@[3],
                        stride: arguments@[4],
                        vertices: vertex_count(arguments@[1], arguments@[2]) as u32,
                    },
                )
            },
    {
        let topology = arguments[1];
        let count = arguments[2];
        let pointer = arguments[3];
        let stride = arguments[4];
        if arguments[0] != DEVICE || self.device_refs == 0 || self.back.is_none()
            || self.viewport.is_none() || self.vertex_fvf != TRANSFORMED_DIFFUSE || !(4 <= topology
            && topology <= 6) || count > MAX_PRIMITIVES || !(VERTEX_SIZE <= stride && stride
            <= MAX_STRIDE) || (count != 0 && pointer == 0) {
            return UpRequest::Refused;
        }
        if count == 0 {
            return UpRequest::Nothing;
        }
        let vertices = if topology == 4 {
            count * 3
        } else {
            count + 2
        };
        assert((vertices - 1) as u64 * stride as u64 <= 3 * MAX_PRIMITIVES * MAX_STRIDE) by (nonlinear_arith)
            requires
                vertices <= 3 * MAX_PRIMITIVES,
                stride <= MAX_STRIDE,
                vertices >= 1,
        ;
        let end = pointer as u64 + (vertices - 1) as u64 * stride as u64 + VERTEX_SIZE as u64;
        if end > 0x1_0000_0000 {
            return UpRequest::Refused;
        }
        UpRequest::Draw(UpDraw { topology, count, pointer, stride, vertices })
    }
}

/// The pixels of level 0 of the texture bound to stage 0, as a draw reads
/// them before it changes the render target.
pub struct TextureSnapshot {
    pub width: u32,
    pub height: u32,
    pub bgra: Vec<u8>,
}

/// A `DrawIndexedPrimitive` that passed its checks: the triangles as
/// vertex numbers of the bound vertex buffer, the vertex records' layout,
/// and the texture to sample.
pub struct IndexedDraw {
    pub triangles: Vec<[u32; 3]>,
    pub vertex_buffer: u32,
    pub stride: u32,
    pub vertex_size: u32,
    pub color_offset: u32,
    pub texture: Option<TextureSnapshot>,
}

/// What a `DrawIndexedPrimitive` asks for.
pub enum IndexedRequest {
    /// The call is refused.
    Refused,
    /// There is nothing to draw.
    Nothing,
    /// Triangles are to be transformed and drawn.
    Draw(IndexedDraw),
}

/// The record size and colour offset of the vertex layouts an indexed draw
/// takes: position, normal and colour (0x142), and with a texture
/// coordinate set too (0x152).
pub open spec fn indexed_layout(fvf: u32) -> Option<(u32, u32)> {
    if fvf == 0x142 {
        Some((24u32, 12u32))
    } else if fvf == 0x152 {
        Some((36u32, 24u32))
    } else {
        None
    }
}

/// The bytes of one index of an index buffer of `format`.
pub open spec fn index_size(format: u32) -> u32 {
    if format == 101 {
        2
    } else {
        4
    }
}

/// Whether `DrawIndexedPrimitive(topology, min_index, vertex_count,
/// start_index, primitive_count)` is refused before anything is read: no
/// viewport, index or vertex binding, an unknown vertex layout, no device
/// or render target, not a triangle list, too many primitives, a stride
/// shorter than a vertex, a texture bound past stage 0, a bound buffer
/// that is gone, indices past the end of the index buffer, or primitives
/// without vertices.
pub open spec fn indexed_refused(graphics: Graphics, arguments: Seq<u32>) -> bool {
    let (topology, min_index, vertices, start, primitives) = (
        arguments[1],
        arguments[2],
        arguments[3],
        arguments[4],
        arguments[5],
    );
    let (index_buffer, _) = graphics.indices->Some_0;
    let (vertex_buffer, stride) = graphics.stream->Some_0;
    let (vertex_size, _) = indexed_layout(graphics.vertex_fvf)->Some_0;
    ||| graphics.viewport is None
    ||| graphics.indices is None
    ||| graphics.stream is None
    ||| indexed_layout(graphics.vertex_fvf) is None
    ||| !device_call(graphics, arguments[0])
    ||| graphics.back is None
    ||| topology != 4
    ||| primitives > MAX_PRIMITIVES
    ||| stride < vertex_size
    ||| (exists|stage: int| 1 <= stage < 8 && #[trigger] graphics.texture_stages@[stage] != 0)
    ||| !graphics.index_buffers@.contains_key(index_buffer)
    ||| !graphics.vertex_buffers@.contains_key(vertex_buffer)
    ||| (start + 3 * primitives) * index_size(graphics.index_buffers@[index_buffer].format)
        > graphics.index_buffers@[index_buffer].lock.byte_length
    ||| min_index + vertices > u32::MAX
    ||| (primitives != 0 && vertices == 0)
}

/// Index `k` of a draw whose indices start at `start` in the index buffer.
pub open spec fn index_value(memory: GuestMemory, graphics: Graphics, start: u32, k: int) -> int {
    let (index_buffer, _) = graphics.indices->Some_0;
    let size = index_size(graphics.index_buffers@[index_buffer].format);
    memory_value(memory, index_buffer + 4096 + (start + k) * size, size as int)
}

/// Whether index `k` of the draw names a vertex it may use: within
/// `[min_index, min_index + vertex_count)`, and, moved by the base vertex,
/// a whole vertex record inside the vertex buffer.
pub open spec fn index_usable(
    memory: GuestMemory,
    graphics: Graphics,
    arguments: Seq<u32>,
    k: int,
) -> bool {
    let index = index_value(memory, graphics, arguments[4], k);
    let (_, base) = graphics.indices->Some_0;
    let (vertex_buffer, stride) = graphics.stream->Some_0;
    let (vertex_size, _) = indexed_layout(graphics.vertex_fvf)->Some_0;
    &&& arguments[2] <= index < arguments[2] + arguments[3]
    &&& (base + index) * stride + vertex_size <= graphics.vertex_buffers@[vertex_buffer].lock.byte_length
}

/// The vertex that index `k` of the draw names.
pub open spec fn index_vertex(
    memory: GuestMemory,
    graphics: Graphics,
    arguments: Seq<u32>,
    k: int,
) -> u32 {
    let (_, base) = graphics.indices->Some_0;
    (base + index_value(memory, graphics, arguments[4], k)) as u32
}

/// Where level 0 of the texture bound to stage 0 keeps its pixels, and
/// how many bytes they take.
pub open spec fn snapshot_range(graphics: Graphics) -> (u64, int) {
    let address = graphics.texture_stages@[0];
    let level = graphics.textures@[address].levels@[0];
    ((address + level.offset) as u64, 4 * level.width * level.height)
}

/// What a checked indexed draw reads and answers, the checks before the
/// reads having passed: the texture pixels (when a texture is bound) and
/// the indices are read, every index must name a usable vertex, and the
/// triangles are given as vertex numbers.
pub open spec fn indexed_read(
    graphics: Graphics,
    memory: GuestMemory,
    arguments: Seq<u32>,
    outcome: Result<IndexedRequest, MemoryError>,
) -> bool {
    let stage = graphics.texture_stages@[0];
    let (index_buffer, _) = graphics.indices->Some_0;
    let size = index_size(graphics.index_buffers@[index_buffer].format);
    let count = 3 * arguments[5];
    let (pixels, length) = snapshot_range(graphics);
    if stage != 0 && !graphics.textures@.contains_key(stage) {
        outcome matches Ok(IndexedRequest::Refused)
    } else if stage != 0 && memory.access(pixels, length, Access::Read) is Err {
        outcome == Err::<IndexedRequest, MemoryError>(
            memory.access(pixels, length, Access::Read)->Err_0,
        )
    } else if memory.access(
        (index_buffer + 4096 + arguments[4] * size) as u64,
        count * size,
        Access::Read,
    ) is Err {
        outcome == Err::<IndexedRequest, MemoryError>(
            memory.access(
                (index_buffer + 4096 + arguments[4] * size) as u64,
                count * size,
                Access::Read,
            )->Err_0,
        )
    } else if exists|k: int| 0 <= k < count && !#[trigger] index_usable(memory, graphics, arguments, k) {
        outcome matches Ok(IndexedRequest::Refused)
    } else {
        outcome matches Ok(IndexedRequest::Draw(draw)) && {
            let (vertex_buffer, stride) = graphics.stream->Some_0;
            let (vertex_size, color_offset) = indexed_layout(graphics.vertex_fvf)->Some_0;
            &&& draw.vertex_buffer == vertex_buffer
            &&& draw.stride == stride
            &&& draw.vertex_size == vertex_size
            &&& draw.color_offset == color_offset
            &&& draw.triangles@.len() == arguments[5]
            &&& forall|t: int, j: int|
                0 <= t < arguments[5] && 0 <= j < 3 ==> #[trigger] draw.triangles@[t]@[j]
                    == index_vertex(memory, graphics, arguments, 3 * t + j)
            &&& if stage == 0 {
                draw.texture is None
            } else {
                let level = graphics.textures@[stage].levels@[0];
                draw.texture matches Some(snapshot) && snapshot.width == level.width
                    && snapshot.height == level.height && snapshot.bgra@ == Seq::new(
                    length as nat,
                    |i: int| memory.byte(pixels + i),
                )
            }
        }
    }
}

/// The index of `size` bytes (2 or 4) at `offset` of `bytes`.
fn decode_index(bytes: &Vec<u8>, offset: usize, size: u32) -> (index: u32)
    requires
        size == 2 || size == 4,
        offset + size <= bytes@.len(),
    ensures
        index == if size == 2 {
            bytes@[offset as int] + 256 * bytes@[offset + 1]
        } else {
            bytes@[offset as int] + 256 * bytes@[offset + 1] + 65536 * bytes@[offset + 2]
                + 16777216 * bytes@[offset + 3]
        },
{
    assert(bytes@.len() == bytes.len());
    let low = bytes[offset] as u32 + 256 * bytes[offset + 1] as u32;
    if size == 2 {
        low
    } else {
        low + 65536 * bytes[offset + 2] as u32 + 16777216 * bytes[offset + 3] as u32
    }
}

impl Graphics {
    /// Checks a `DrawIndexedPrimitive(topology, min_index, vertex_count,
    /// start_index, primitive_count)` and reads what it draws: the texture
    /// pixels and the triangles' vertex numbers.
    #[verifier::loop_isolation(false)]
    pub fn indexed_request(&self, arguments: &[u32], memory: &GuestMemory) -> (outcome: Result<
        IndexedRequest,
        MemoryError,
    >)
        requires
            self.wf(),
            memory.wf(),
            arguments@.len() == 6,
        ensures
            if indexed_refused(*self, arguments@) {
                outcome matches Ok(IndexedRequest::Refused)
            } else if arguments@[5] == 0 {
                outcome matches Ok(IndexedRequest::Nothing)
            } else {
                indexed_read(*self, *memory, arguments@, outcome)
            },
    {
        let min_index = arguments[2];
        let vertices = arguments[3];
        let start = arguments[4];
        let primitives = arguments[5];
        if self.viewport.is_none() {
            return Ok(IndexedRequest::Refused);
        }
        let (index_buffer, base) = match self.indices {
            Some(binding) => binding,
            None => return Ok(IndexedRequest::Refused),
        };
        let (vertex_buffer, stride) = match self.stream {
            Some(binding) => binding,
            None => return Ok(IndexedRequest::Refused),
        };
        let (vertex_size, color_offset): (u32, u32) = if self.vertex_fvf == 0x142 {
            (24, 12)
        } else if self.vertex_fvf == 0x152 {
            (36, 24)
        } else {
            return Ok(IndexedRequest::Refused);
        };
        if arguments[0] != DEVICE || self.device_refs == 0 || self.back.is_none() || arguments[1]
            != 4 || primitives > MAX_PRIMITIVES || stride < vertex_size {
            return Ok(IndexedRequest::Refused);
        }
        let mut stage: usize = 1;
        while stage < 8
            invariant
                1 <= stage <= 8,
                forall|s: int| 1 <= s < stage ==> #[trigger] self.texture_stages@[s] == 0,
            decreases 8 - stage,
        {
            if self.texture_stages[stage] != 0 {
                assert(self.texture_stages@[stage as int] != 0);
                return Ok(IndexedRequest::Refused);
            }
            stage = stage + 1;
        }
        let indices = match self.index_buffers.get(&index_buffer) {
            Some(buffer) => *buffer,
            None => return Ok(IndexedRequest::Refused),
        };
        let records = match self.vertex_buffers.get(&vertex_buffer) {
            Some(buffer) => *buffer,
            None => return Ok(IndexedRequest::Refused),
        };
        let size: u32 = if indices.format == 101 {
            2
        } else {
            4
        };
        let count = primitives * 3;
        if (start as u64 + count as u64) * size as u64 > indices.lock.byte_length as u64 {
            return Ok(IndexedRequest::Refused);
        }
        if min_index as u64 + vertices as u64 > u32::MAX as u64 {
            return Ok(IndexedRequest::Refused);
        }
        if primitives != 0 && vertices == 0 {
            return Ok(IndexedRequest::Refused);
        }
        if primitives == 0 {
            return Ok(IndexedRequest::Nothing);
        }
        let bound = self.texture_stages[0];
        let texture = if bound == 0 {
            None
        } else {
            match self.textures.get(&bound) {
                None => return Ok(IndexedRequest::Refused),
                Some(texture) => {
                    proof {
                        assert(texture_placed(bound, self.textures@[bound]));
                        assert(level_placed(texture.levels@[0], texture.length));
                    }
                    let level = texture.levels[0];
                    assert(level.width * level.height * 4 == 4 * level.width * level.height)
                        by (nonlinear_arith);
                    let mut bgra = vec![0u8; (level.width * level.height * 4) as usize];
                    let pixels = bound as u64 + level.offset as u64;
                    match memory.read(pixels, bgra.as_mut_slice()) {
                        Ok(()) => {},
                        Err(error) => return Err(error),
                    }
                    assert(bgra@ =~= Seq::new(
                        (4 * level.width * level.height) as nat,
                        |i: int| memory.byte(pixels + i),
                    ));
                    Some(TextureSnapshot { width: level.width, height: level.height, bgra })
                },
            }
        };
        proof {
            assert(buffer_placed(
                index_buffer,
                self.index_buffers@[index_buffer].length,
                indices.lock.byte_length,
            ));
            super::buffers::lemma_buffer_room(
                index_buffer,
                self.index_buffers@[index_buffer].length,
                indices.lock.byte_length,
            );
        }
        let first = index_buffer as u64 + 4096 + start as u64 * size as u64;
        let mut bytes = vec![0u8; (count * size) as usize];
        match memory.read(first, bytes.as_mut_slice()) {
            Ok(()) => {},
            Err(error) => return Err(error),
        }
        let mut triangles: Vec<[u32; 3]> = Vec::new();
        let mut t: u32 = 0;
        while t < primitives
            invariant
                t <= primitives,
                triangles@.len() == t,
                forall|k: int| 0 <= k < 3 * t ==> #[trigger] index_usable(*memory, *self, arguments@, k),
                forall|u: int, j: int|
                    0 <= u < t && 0 <= j < 3 ==> #[trigger] triangles@[u]@[j] == index_vertex(
                        *memory,
                        *self,
                        arguments@,
                        3 * u + j,
                    ),
            decreases primitives - t,
        {
            let mut keys = [0u32; 3];
            let mut j: u32 = 0;
            while j < 3
                invariant
                    j <= 3,
                    t < primitives,
                    forall|k: int| 0 <= k < 3 * t + j ==> #[trigger] index_usable(*memory, *self, arguments@, k),
                    forall|i: int| 0 <= i < j ==> #[trigger] keys@[i] == index_vertex(
                        *memory,
                        *self,
                        arguments@,
                        3 * t + i,
                    ),
                decreases 3 - j,
            {
                let k = 3 * t + j;
                let offset = (k * size) as usize;
                let index = decode_index(&bytes, offset, size);
                proof {
                    assert((start + k) * size == start * size + k * size) by (nonlinear_arith);
                    assert(bytes@[offset as int] == memory.byte(first + (offset as int)));
                    assert(bytes@[offset + 1] == memory.byte(first + (offset + 1)));
                    if size == 4 {
                        assert(bytes@[offset + 2] == memory.byte(first + (offset + 2)));
                        assert(bytes@[offset + 3] == memory.byte(first + (offset + 3)));
                    }
                    assert(index == index_value(*memory, *self, start, k as int));
                }
                if index < min_index || index as u64 >= min_index as u64 + vertices as u64 {
                    assert(!index_usable(*memory, *self, arguments@, k as int));
                    return Ok(IndexedRequest::Refused);
                }
                let vertex = base as u64 + index as u64;
                if vertex > u32::MAX as u64 {
                    assert((base + index) * stride >= base + index) by (nonlinear_arith)
                        requires
                            stride >= 1,
                            base + index >= 0,
                    ;
                    assert(!index_usable(*memory, *self, arguments@, k as int));
                    return Ok(IndexedRequest::Refused);
                }
                assert(vertex * stride <= 0xffff_ffffu64 * 0xffff_ffffu64) by (nonlinear_arith)
                    requires
                        vertex <= 0xffff_ffff,
                        stride <= 0xffff_ffff,
                ;
                if vertex * stride as u64 + vertex_size as u64 > records.lock.byte_length as u64 {
                    assert(!index_usable(*memory, *self, arguments@, k as int));
                    return Ok(IndexedRequest::Refused);
                }
                assert(vertex <= vertex * stride) by (nonlinear_arith)
                    requires
                        stride >= 1,
                ;
                keys.set(j as usize, vertex as u32);
                j = j + 1;
            }
            triangles.push(keys);
            t = t + 1;
        }
        Ok(
            IndexedRequest::Draw(
                IndexedDraw { triangles, vertex_buffer, stride, vertex_size, color_offset, texture },
            ),
        )
    }
}

} // verus!
