//! Vertex and index buffers: creation, references, locks, and binding them
//! as the stream source and the index source.
use super::device::{buffer_placed, object_length, Graphics};
use super::objects::{
    store_word, BufferLock, IndexBuffer, VertexBuffer, DEVICE, INDEX_BUFFER_TABLE, INVALID_CALL,
    MAX_STRIDE, OUT_OF_VIDEO_MEMORY, TEXTURE_END, TEXTURE_START, VERTEX_BUFFER_TABLE,
};
use super::placement::{free_spot, place_object, placed};
use super::state::device_call;
use crate::cpu::operands::value_bytes;
use crate::memory::{Access, GuestMemory, MemoryError};
use std::collections::BTreeMap;
use vstd::prelude::*;

verus! {

broadcast use vstd::std_specs::btree::group_btree_axioms;

/// `new` is `before` with one device reference given back, and the device
/// ended when that was the last.
pub open spec fn dropped_device(new: Graphics, before: Graphics) -> bool {
    if before.device_refs > 1 {
        new == Graphics { device_refs: (before.device_refs - 1) as u32, ..before }
    } else {
        new.device_refs == 0 && new.finished(Graphics { device_refs: 0, ..before })
    }
}

/// The vertex layouts a vertex buffer accepts: untransformed or
/// transformed positions, with optional normal (not with transformed
/// positions), diffuse and specular colours and one texture coordinate set.
pub open spec fn supported_layout(fvf: u32) -> bool {
    let position = fvf & 0x000e;
    &&& (position == 0x0002 || position == 0x0004)
    &&& fvf & !(0x000eu32 | 0x0010 | 0x0040 | 0x0080 | 0x0100) == 0
    &&& (position != 0x0004 || fvf & 0x0010 == 0)
}

/// The usages a buffer accepts: write-only, software processing, dynamic.
pub open spec fn buffer_usage(usage: u32) -> bool {
    usage & !(0x0008u32 | 0x0010 | 0x0200) == 0
}

/// What creating an object of `length` bytes with header words `header`
/// answers and leaves, with `created` what holds of the device afterwards
/// given the object's address; the request was already found acceptable
/// and `output` writable.
pub open spec fn object_created(
    graphics: Graphics,
    old: Graphics,
    new_memory: GuestMemory,
    old_memory: GuestMemory,
    length: int,
    header: Seq<u32>,
    output: u32,
    outcome: Result<u32, MemoryError>,
    created: spec_fn(u32) -> bool,
) -> bool {
    match free_spot(old_memory.pages(), length) {
        None => outcome == Ok::<u32, MemoryError>(OUT_OF_VIDEO_MEMORY) && graphics == old
            && new_memory == old_memory,
        Some(spot) => if old_memory.map_outcome(spot as u64, length as u64) is Err {
            outcome == Ok::<u32, MemoryError>(OUT_OF_VIDEO_MEMORY) && graphics == old && new_memory
                == old_memory
        } else {
            &&& outcome == Ok::<u32, MemoryError>(0)
            &&& placed(new_memory, old_memory, spot, length, header, output)
            &&& created(spot as u32)
            &&& graphics.device_refs == if old.device_refs == u32::MAX {
                u32::MAX
            } else {
                (old.device_refs + 1) as u32
            }
        },
    }
}

/// The bytes mapped for `byte_length` bytes of data and a header page.
fn mapped_length(byte_length: u32) -> (length: u64)
    ensures
        length == object_length(byte_length as int),
        length % 4096 == 0,
        4096 <= length <= 4096 + 0x1_0000_0000,
{
    4096 + (byte_length as u64 + 4095) / 4096 * 4096
}

/// What `create_vertex_buffer` answers and leaves.
pub open spec fn create_vertex_buffer_result(
    new: Graphics,
    old: Graphics,
    arguments: Seq<u32>,
    new_memory: GuestMemory,
    old_memory: GuestMemory,
    outcome: Result<u32, MemoryError>,
) -> bool {
    &&& (if !device_call(old, arguments[0]) || arguments[1] == 0 || !buffer_usage(
            arguments[2],
        ) || !supported_layout(arguments[3]) || arguments[4] > 2 {
            outcome == Ok::<u32, MemoryError>(INVALID_CALL) && new == old
                && new_memory == old_memory
        } else {
            match old_memory.access(arguments[5] as u64, 4, Access::Write) {
                Err(error) => outcome == Err::<u32, MemoryError>(error) && new == old && new_memory == old_memory,
                Ok(()) => object_created(
                    new,
                    old,
                    new_memory,
                    old_memory,
                    object_length(arguments[1] as int),
                    seq![VERTEX_BUFFER_TABLE],
                    arguments[5],
                    outcome,
                    |address: u32|
                        new.vertex_buffers@ == old.vertex_buffers@.insert(
                            address,
                            VertexBuffer {
                                refs: 1,
                                length: object_length(arguments[1] as int) as u64,
                                lock: BufferLock {
                                    byte_length: arguments[1],
                                    usage: arguments[2],
                                    count: 0,
                                },
                            },
                        ) && new == (Graphics {
                            vertex_buffers: new.vertex_buffers,
                            device_refs: new.device_refs,
                            ..old
                        }),
                ),
            }
        })
}

/// What `create_index_buffer` answers and leaves.
pub open spec fn create_index_buffer_result(
    new: Graphics,
    old: Graphics,
    arguments: Seq<u32>,
    new_memory: GuestMemory,
    old_memory: GuestMemory,
    outcome: Result<u32, MemoryError>,
) -> bool {
    &&& (if !(arguments[3] == 101 || arguments[3] == 102) || !device_call(
            old,
            arguments[0],
        ) || arguments[1] == 0 || arguments[1] % (if arguments[3] == 101 {
            2u32
        } else {
            4u32
        }) != 0 || !buffer_usage(arguments[2]) || arguments[4] > 2 {
            outcome == Ok::<u32, MemoryError>(INVALID_CALL) && new == old
                && new_memory == old_memory
        } else {
            match old_memory.access(arguments[5] as u64, 4, Access::Write) {
                Err(error) => outcome == Err::<u32, MemoryError>(error) && new == old && new_memory == old_memory,
                Ok(()) => object_created(
                    new,
                    old,
                    new_memory,
                    old_memory,
                    object_length(arguments[1] as int),
                    seq![INDEX_BUFFER_TABLE],
                    arguments[5],
                    outcome,
                    |address: u32|
                        new.index_buffers@ == old.index_buffers@.insert(
                            address,
                            IndexBuffer {
                                refs: 1,
                                length: object_length(arguments[1] as int) as u64,
                                format: arguments[3],
                                lock: BufferLock {
                                    byte_length: arguments[1],
                                    usage: arguments[2],
                                    count: 0,
                                },
                            },
                        ) && new == (Graphics {
                            index_buffers: new.index_buffers,
                            device_refs: new.device_refs,
                            ..old
                        }),
                ),
            }
        })
}

impl Graphics {
    /// `CreateVertexBuffer(length, usage, fvf, pool, output)`.
    pub fn create_vertex_buffer(&mut self, arguments: &[u32], memory: &mut GuestMemory) -> (outcome:
        Result<u32, MemoryError>)
        requires
            old(self).wf(),
            old(memory).wf(),
            arguments@.len() == 6,
        ensures
            final(self).wf(),
            final(memory).wf(),
            create_vertex_buffer_result(
                *final(self),
                *old(self),
                arguments@,
                *final(memory),
                *old(memory),
                outcome,
            ),
    {
        let byte_length = arguments[1];
        let usage = arguments[2];
        let fvf = arguments[3];
        let position = fvf & 0x000e;
        let supported = (position == 0x0002 || position == 0x0004) && fvf & !(0x000eu32 | 0x0010
            | 0x0040 | 0x0080 | 0x0100) == 0 && (position != 0x0004 || fvf & 0x0010 == 0);
        if arguments[0] != DEVICE || self.device_refs == 0 || byte_length == 0 || usage & !(0x0008u32
            | 0x0010 | 0x0200) != 0 || !supported || arguments[4] > 2 {
            return Ok(INVALID_CALL);
        }
        let output = arguments[5];
        memory.check_access(output as u64, 4, Access::Write)?;
        let length = mapped_length(byte_length);
        if length > TEXTURE_END - TEXTURE_START {
            proof {
                assert(super::placement::free_spot(memory.pages(), length as int) is None) by {
                    if exists|address: int|
                        super::placement::first_fit(memory.pages(), length as int, address) {
                        let found = choose|address: int|
                            super::placement::first_fit(memory.pages(), length as int, address);
                        assert(found + length <= TEXTURE_END);
                    }
                }
            }
            return Ok(OUT_OF_VIDEO_MEMORY);
        }
        let header: [u32; 1] = [VERTEX_BUFFER_TABLE];
        let address = match place_object(memory, length, &header, output)? {
            Some(address) => address,
            None => return Ok(OUT_OF_VIDEO_MEMORY),
        };
        assert(header@ =~= seq![VERTEX_BUFFER_TABLE]);
        self.vertex_buffers.insert(
            address,
            VertexBuffer { refs: 1, length, lock: BufferLock { byte_length, usage, count: 0 } },
        );
        self.device_refs = self.device_refs.saturating_add(1);
        Ok(0)
    }

    /// `CreateIndexBuffer(length, usage, format, pool, output)` for 16-bit
    /// (101) or 32-bit (102) indices.
    pub fn create_index_buffer(&mut self, arguments: &[u32], memory: &mut GuestMemory) -> (outcome:
        Result<u32, MemoryError>)
        requires
            old(self).wf(),
            old(memory).wf(),
            arguments@.len() == 6,
        ensures
            final(self).wf(),
            final(memory).wf(),
            create_index_buffer_result(
                *final(self),
                *old(self),
                arguments@,
                *final(memory),
                *old(memory),
                outcome,
            ),
    {
        let byte_length = arguments[1];
        let usage = arguments[2];
        let format = arguments[3];
        let index_size: u32 = if format == 101 {
            2
        } else if format == 102 {
            4
        } else {
            return Ok(INVALID_CALL);
        };
        if arguments[0] != DEVICE || self.device_refs == 0 || byte_length == 0 || byte_length
            % index_size != 0 || usage & !(0x0008u32 | 0x0010 | 0x0200) != 0 || arguments[4] > 2 {
            return Ok(INVALID_CALL);
        }
        let output = arguments[5];
        memory.check_access(output as u64, 4, Access::Write)?;
        let length = mapped_length(byte_length);
        if length > TEXTURE_END - TEXTURE_START {
            proof {
                assert(super::placement::free_spot(memory.pages(), length as int) is None) by {
                    if exists|address: int|
                        super::placement::first_fit(memory.pages(), length as int, address) {
                        let found = choose|address: int|
                            super::placement::first_fit(memory.pages(), length as int, address);
                        assert(found + length <= TEXTURE_END);
                    }
                }
            }
            return Ok(OUT_OF_VIDEO_MEMORY);
        }
        let header: [u32; 1] = [INDEX_BUFFER_TABLE];
        let address = match place_object(memory, length, &header, output)? {
            Some(address) => address,
            None => return Ok(OUT_OF_VIDEO_MEMORY),
        };
        assert(header@ =~= seq![INDEX_BUFFER_TABLE]);
        self.index_buffers.insert(
            address,
            IndexBuffer {
                refs: 1,
                length,
                format,
                lock: BufferLock { byte_length, usage, count: 0 },
            },
        );
        self.device_refs = self.device_refs.saturating_add(1);
        Ok(0)
    }
}

/// The vertex buffers with one more reference to the one at `address`
/// (saturating).
pub open spec fn vertex_referenced(buffers: Map<u32, VertexBuffer>, address: u32) -> Map<u32, VertexBuffer> {
    let buffer = buffers[address];
    buffers.insert(
        address,
        VertexBuffer {
            refs: if buffer.refs == u32::MAX {
                u32::MAX
            } else {
                (buffer.refs + 1) as u32
            },
            ..buffer
        },
    )
}

/// The index buffers with one more reference to the one at `address`
/// (saturating).
pub open spec fn index_referenced(buffers: Map<u32, IndexBuffer>, address: u32) -> Map<u32, IndexBuffer> {
    let buffer = buffers[address];
    buffers.insert(
        address,
        IndexBuffer {
            refs: if buffer.refs == u32::MAX {
                u32::MAX
            } else {
                (buffer.refs + 1) as u32
            },
            ..buffer
        },
    )
}

/// What releasing the vertex buffer at `address` answers and leaves: one
/// reference fewer, or, for the last one, the buffer unmapped and dropped
/// with the device reference it held.
pub open spec fn vertex_released(
    new: Graphics,
    old: Graphics,
    new_memory: GuestMemory,
    old_memory: GuestMemory,
    address: u32,
    outcome: Result<u32, MemoryError>,
) -> bool {
    if !old.vertex_buffers@.contains_key(address) {
        outcome == Ok::<u32, MemoryError>(INVALID_CALL) && new == old && new_memory == old_memory
    } else {
        let buffer = old.vertex_buffers@[address];
        if buffer.refs > 1 {
            &&& outcome == Ok::<u32, MemoryError>((buffer.refs - 1) as u32)
            &&& new_memory == old_memory
            &&& new.vertex_buffers@ == old.vertex_buffers@.insert(
                address,
                VertexBuffer { refs: (buffer.refs - 1) as u32, ..buffer },
            )
            &&& new == Graphics { vertex_buffers: new.vertex_buffers, ..old }
        } else {
            match old_memory.mapped_outcome(address as u64, buffer.length) {
                Err(error) => outcome == Err::<u32, MemoryError>(error) && new == old && new_memory
                    == old_memory,
                Ok(()) => {
                    &&& outcome == Ok::<u32, MemoryError>(0)
                    &&& new_memory.wf()
                    &&& new_memory.unmapped(
                        old_memory,
                        address as int / 4096,
                        (address + buffer.length) / 4096,
                    )
                    &&& new.vertex_buffers@ == old.vertex_buffers@.remove(address)
                    &&& dropped_device(new, Graphics { vertex_buffers: new.vertex_buffers, ..old })
                },
            }
        }
    }
}

/// What releasing the index buffer at `address` answers and leaves, as for
/// vertex buffers.
pub open spec fn index_released(
    new: Graphics,
    old: Graphics,
    new_memory: GuestMemory,
    old_memory: GuestMemory,
    address: u32,
    outcome: Result<u32, MemoryError>,
) -> bool {
    if !old.index_buffers@.contains_key(address) {
        outcome == Ok::<u32, MemoryError>(INVALID_CALL) && new == old && new_memory == old_memory
    } else {
        let buffer = old.index_buffers@[address];
        if buffer.refs > 1 {
            &&& outcome == Ok::<u32, MemoryError>((buffer.refs - 1) as u32)
            &&& new_memory == old_memory
            &&& new.index_buffers@ == old.index_buffers@.insert(
                address,
                IndexBuffer { refs: (buffer.refs - 1) as u32, ..buffer },
            )
            &&& new == Graphics { index_buffers: new.index_buffers, ..old }
        } else {
            match old_memory.mapped_outcome(address as u64, buffer.length) {
                Err(error) => outcome == Err::<u32, MemoryError>(error) && new == old && new_memory
                    == old_memory,
                Ok(()) => {
                    &&& outcome == Ok::<u32, MemoryError>(0)
                    &&& new_memory.wf()
                    &&& new_memory.unmapped(
                        old_memory,
                        address as int / 4096,
                        (address + buffer.length) / 4096,
                    )
                    &&& new.index_buffers@ == old.index_buffers@.remove(address)
                    &&& dropped_device(new, Graphics { index_buffers: new.index_buffers, ..old })
                },
            }
        }
    }
}

/// What a successful release of the vertex buffer at `address` answers.
pub open spec fn vertex_release_status(graphics: Graphics, address: u32) -> u32 {
    if !graphics.vertex_buffers@.contains_key(address) {
        INVALID_CALL
    } else if graphics.vertex_buffers@[address].refs > 1 {
        (graphics.vertex_buffers@[address].refs - 1) as u32
    } else {
        0
    }
}

/// What a successful release of the index buffer at `address` answers.
pub open spec fn index_release_status(graphics: Graphics, address: u32) -> u32 {
    if !graphics.index_buffers@.contains_key(address) {
        INVALID_CALL
    } else if graphics.index_buffers@[address].refs > 1 {
        (graphics.index_buffers@[address].refs - 1) as u32
    } else {
        0
    }
}

/// Whether releasing the vertex buffer at `address` would give back a
/// device reference that is not there.
pub open spec fn vertex_release_unbacked(graphics: Graphics, address: u32) -> bool {
    graphics.vertex_buffers@.contains_key(address) && graphics.vertex_buffers@[address].refs <= 1
        && graphics.device_refs == 0
}

/// Whether releasing the index buffer at `address` would give back a
/// device reference that is not there.
pub open spec fn index_release_unbacked(graphics: Graphics, address: u32) -> bool {
    graphics.index_buffers@.contains_key(address) && graphics.index_buffers@[address].refs <= 1
        && graphics.device_refs == 0
}

/// What `vertex_buffer_add_ref` answers and leaves.
pub open spec fn vertex_buffer_add_ref_result(
    new: Graphics,
    old: Graphics,
    address: u32,
    count: u32,
) -> bool {
    &&& (!old.vertex_buffers@.contains_key(address) ==> count == INVALID_CALL
            && new == old)
    &&& (old.vertex_buffers@.contains_key(address) ==> {
            &&& new.vertex_buffers@ == vertex_referenced(
                old.vertex_buffers@,
                address,
            )
            &&& count == new.vertex_buffers@[address].refs
            &&& new == (Graphics { vertex_buffers: new.vertex_buffers, ..old })
        })
}

/// What `index_buffer_add_ref` answers and leaves.
pub open spec fn index_buffer_add_ref_result(
    new: Graphics,
    old: Graphics,
    address: u32,
    count: u32,
) -> bool {
    &&& (!old.index_buffers@.contains_key(address) ==> count == INVALID_CALL
            && new == old)
    &&& (old.index_buffers@.contains_key(address) ==> {
            &&& new.index_buffers@ == index_referenced(old.index_buffers@, address)
            &&& count == new.index_buffers@[address].refs
            &&& new == (Graphics { index_buffers: new.index_buffers, ..old })
        })
}

impl Graphics {
    /// `AddRef` of the vertex buffer at `address`: its reference count.
    pub fn vertex_buffer_add_ref(&mut self, address: u32) -> (count: u32)
        requires
            old(self).wf(),
        ensures
            final(self).wf(),
            vertex_buffer_add_ref_result(*final(self), *old(self), address, count),
    {
        let buffer = match self.vertex_buffers.get(&address) {
            Some(buffer) => *buffer,
            None => return INVALID_CALL,
        };
        let refs = buffer.refs.saturating_add(1);
        self.vertex_buffers.insert(address, VertexBuffer { refs, ..buffer });
        refs
    }

    /// `AddRef` of the index buffer at `address`: its reference count.
    pub fn index_buffer_add_ref(&mut self, address: u32) -> (count: u32)
        requires
            old(self).wf(),
        ensures
            final(self).wf(),
            index_buffer_add_ref_result(*final(self), *old(self), address, count),
    {
        let buffer = match self.index_buffers.get(&address) {
            Some(buffer) => *buffer,
            None => return INVALID_CALL,
        };
        let refs = buffer.refs.saturating_add(1);
        self.index_buffers.insert(address, IndexBuffer { refs, ..buffer });
        refs
    }

    /// `Release` of the vertex buffer at `address`.
    pub fn vertex_buffer_release(&mut self, address: u32, memory: &mut GuestMemory) -> (outcome:
        Result<u32, MemoryError>)
        requires
            old(self).wf(),
            old(memory).wf(),
            !vertex_release_unbacked(*old(self), address),
        ensures
            final(self).wf(),
            final(memory).wf(),
            vertex_released(*final(self), *old(self), *final(memory), *old(memory), address, outcome),
    {
        let buffer = match self.vertex_buffers.get(&address) {
            Some(buffer) => *buffer,
            None => return Ok(INVALID_CALL),
        };
        if buffer.refs > 1 {
            let refs = buffer.refs - 1;
            self.vertex_buffers.insert(address, VertexBuffer { refs, ..buffer });
            return Ok(refs);
        }
        memory.unmap(address as u64, buffer.length)?;
        self.vertex_buffers.remove(&address);
        self.device_refs = self.device_refs - 1;
        if self.device_refs == 0 {
            self.finish_device();
        }
        Ok(0)
    }

    /// `Release` of the index buffer at `address`.
    pub fn index_buffer_release(&mut self, address: u32, memory: &mut GuestMemory) -> (outcome:
        Result<u32, MemoryError>)
        requires
            old(self).wf(),
            old(memory).wf(),
            !index_release_unbacked(*old(self), address),
        ensures
            final(self).wf(),
            final(memory).wf(),
            index_released(*final(self), *old(self), *final(memory), *old(memory), address, outcome),
    {
        let buffer = match self.index_buffers.get(&address) {
            Some(buffer) => *buffer,
            None => return Ok(INVALID_CALL),
        };
        if buffer.refs > 1 {
            let refs = buffer.refs - 1;
            self.index_buffers.insert(address, IndexBuffer { refs, ..buffer });
            return Ok(refs);
        }
        memory.unmap(address as u64, buffer.length)?;
        self.index_buffers.remove(&address);
        self.device_refs = self.device_refs - 1;
        if self.device_refs == 0 {
            self.finish_device();
        }
        Ok(0)
    }
}

/// Buffers leave room for their data within the 32-bit space.
pub proof fn lemma_buffer_room(address: u32, length: u64, byte_length: u32)
    requires
        buffer_placed(address, length, byte_length),
    ensures
        address + 4096 + byte_length <= TEXTURE_END,
{
    assert((byte_length + 4095) / 4096 * 4096 >= byte_length) by (nonlinear_arith)
        requires
            byte_length >= 0,
    ;
}

/// What locking a buffer with lock state `lock` at `address` answers and
/// leaves, with `changed` the lock state kept afterwards.
pub open spec fn lock_taken(
    lock: BufferLock,
    changed: BufferLock,
    address: u32,
    arguments: Seq<u32>,
    old_memory: GuestMemory,
    new_memory: GuestMemory,
    outcome: Result<u32, MemoryError>,
) -> bool {
    if super::objects::lock_refused(lock, arguments[1], arguments[2], arguments[4]) {
        outcome == Ok::<u32, MemoryError>(INVALID_CALL) && changed == lock && new_memory
            == old_memory
    } else {
        match old_memory.access(arguments[3] as u64, 4, Access::Write) {
            Err(error) => outcome == Err::<u32, MemoryError>(error) && changed == lock && new_memory
                == old_memory,
            Ok(()) => outcome == Ok::<u32, MemoryError>(0) && changed == (BufferLock {
                count: (lock.count + 1) as u32,
                ..lock
            }) && new_memory.wf() && new_memory.wrote(
                old_memory,
                arguments[3] as int,
                value_bytes((address + 4096 + arguments[1]) as u32, 4),
            ),
        }
    }
}

/// The buffer bound by an optional `(buffer, value)` pair, or 0.
pub open spec fn bound_buffer(binding: Option<(u32, u32)>) -> u32 {
    match binding {
        Some((buffer, _)) => buffer,
        None => 0,
    }
}

/// The binding of `buffer` with `value`, none for a null buffer.
pub open spec fn binding_of(buffer: u32, value: u32) -> Option<(u32, u32)> {
    if buffer != 0 {
        Some((buffer, value))
    } else {
        None
    }
}

/// What `buffer_lock` answers and leaves.
pub open spec fn buffer_lock_result(
    new: Graphics,
    old: Graphics,
    call: super::calls::Call,
    arguments: Seq<u32>,
    new_memory: GuestMemory,
    old_memory: GuestMemory,
    outcome: Result<u32, MemoryError>,
) -> bool {
    &&& (call == super::calls::Call::VertexBufferLock ==> if !old.vertex_buffers@.contains_key(
            arguments[0],
        ) {
            outcome == Ok::<u32, MemoryError>(INVALID_CALL) && new == old
                && new_memory == old_memory
        } else {
            let buffer = old.vertex_buffers@[arguments[0]];
            &&& new.vertex_buffers@.dom() == old.vertex_buffers@.dom()
            &&& lock_taken(
                buffer.lock,
                new.vertex_buffers@[arguments[0]].lock,
                arguments[0],
                arguments,
                old_memory,
                new_memory,
                outcome,
            )
            &&& new.vertex_buffers@ == old.vertex_buffers@.insert(
                arguments[0],
                VertexBuffer {
                    lock: new.vertex_buffers@[arguments[0]].lock,
                    ..buffer
                },
            )
            &&& new == (Graphics { vertex_buffers: new.vertex_buffers, ..old })
        })
    &&& (call == super::calls::Call::IndexBufferLock ==> if !old.index_buffers@.contains_key(
            arguments[0],
        ) {
            outcome == Ok::<u32, MemoryError>(INVALID_CALL) && new == old
                && new_memory == old_memory
        } else {
            let buffer = old.index_buffers@[arguments[0]];
            &&& lock_taken(
                buffer.lock,
                new.index_buffers@[arguments[0]].lock,
                arguments[0],
                arguments,
                old_memory,
                new_memory,
                outcome,
            )
            &&& new.index_buffers@ == old.index_buffers@.insert(
                arguments[0],
                IndexBuffer { lock: new.index_buffers@[arguments[0]].lock, ..buffer },
            )
            &&& new == (Graphics { index_buffers: new.index_buffers, ..old })
        })
}

/// What `buffer_unlock` answers and leaves.
pub open spec fn buffer_unlock_result(
    new: Graphics,
    old: Graphics,
    call: super::calls::Call,
    address: u32,
    status: u32,
) -> bool {
    &&& (call == super::calls::Call::VertexBufferUnlock ==> if !old.vertex_buffers@.contains_key(
            address,
        ) || old.vertex_buffers@[address].lock.count == 0 {
            status == INVALID_CALL && new == old
        } else {
            let buffer = old.vertex_buffers@[address];
            &&& status == 0
            &&& new.vertex_buffers@ == old.vertex_buffers@.insert(
                address,
                VertexBuffer {
                    lock: BufferLock { count: (buffer.lock.count - 1) as u32, ..buffer.lock },
                    ..buffer
                },
            )
            &&& new == (Graphics { vertex_buffers: new.vertex_buffers, ..old })
        })
    &&& (call == super::calls::Call::IndexBufferUnlock ==> if !old.index_buffers@.contains_key(
            address,
        ) || old.index_buffers@[address].lock.count == 0 {
            status == INVALID_CALL && new == old
        } else {
            let buffer = old.index_buffers@[address];
            &&& status == 0
            &&& new.index_buffers@ == old.index_buffers@.insert(
                address,
                IndexBuffer {
                    lock: BufferLock { count: (buffer.lock.count - 1) as u32, ..buffer.lock },
                    ..buffer
                },
            )
            &&& new == (Graphics { index_buffers: new.index_buffers, ..old })
        })
}

impl Graphics {
    /// `Lock(offset, size, output, flags)` of a vertex or index buffer.
    pub fn buffer_lock(&mut self, call: super::calls::Call, arguments: &[u32], memory: &mut GuestMemory) -> (outcome:
        Result<u32, MemoryError>)
        requires
            old(self).wf(),
            old(memory).wf(),
            arguments@.len() == 5,
            call == super::calls::Call::VertexBufferLock || call
                == super::calls::Call::IndexBufferLock,
        ensures
            final(self).wf(),
            final(memory).wf(),
            buffer_lock_result(
                *final(self),
                *old(self),
                call,
                arguments@,
                *final(memory),
                *old(memory),
                outcome,
            ),
    {
        let address = arguments[0];
        if call == super::calls::Call::VertexBufferLock {
            let buffer = match self.vertex_buffers.get(&address) {
                Some(buffer) => *buffer,
                None => return Ok(INVALID_CALL),
            };
            proof {
                lemma_buffer_room(address, buffer.length, buffer.lock.byte_length);
            }
            let mut lock = buffer.lock;
            let status = lock.lock(address, arguments, memory);
            self.vertex_buffers.insert(address, VertexBuffer { lock, ..buffer });
            assert(self.vertex_buffers@.dom() =~= old(self).vertex_buffers@.dom());
            status
        } else {
            let buffer = match self.index_buffers.get(&address) {
                Some(buffer) => *buffer,
                None => return Ok(INVALID_CALL),
            };
            proof {
                lemma_buffer_room(address, buffer.length, buffer.lock.byte_length);
            }
            let mut lock = buffer.lock;
            let status = lock.lock(address, arguments, memory);
            self.index_buffers.insert(address, IndexBuffer { lock, ..buffer });
            status
        }
    }

    /// `Unlock` of a vertex or index buffer.
    pub fn buffer_unlock(&mut self, call: super::calls::Call, address: u32) -> (status: u32)
        requires
            old(self).wf(),
            call == super::calls::Call::VertexBufferUnlock || call
                == super::calls::Call::IndexBufferUnlock,
        ensures
            final(self).wf(),
            buffer_unlock_result(*final(self), *old(self), call, address, status),
    {
        if call == super::calls::Call::VertexBufferUnlock {
            let buffer = match self.vertex_buffers.get(&address) {
                Some(buffer) => *buffer,
                None => return INVALID_CALL,
            };
            let mut lock = buffer.lock;
            let status = lock.unlock();
            if status == 0 {
                self.vertex_buffers.insert(address, VertexBuffer { lock, ..buffer });
            }
            status
        } else {
            let buffer = match self.index_buffers.get(&address) {
                Some(buffer) => *buffer,
                None => return INVALID_CALL,
            };
            let mut lock = buffer.lock;
            let status = lock.unlock();
            if status == 0 {
                self.index_buffers.insert(address, IndexBuffer { lock, ..buffer });
            }
            status
        }
    }
}

/// What `set_indices` answers and leaves.
pub open spec fn set_indices_result(
    new: Graphics,
    old: Graphics,
    arguments: Seq<u32>,
    new_memory: GuestMemory,
    old_memory: GuestMemory,
    outcome: Result<u32, MemoryError>,
) -> bool {
    &&& (({
            let previous = bound_buffer(old.indices);
            let next = arguments[1];
            let binding = binding_of(next, arguments[2]);
            if !device_call(old, arguments[0]) {
                outcome == Ok::<u32, MemoryError>(INVALID_CALL) && new == old
                    && new_memory == old_memory
            } else if next == previous {
                outcome == Ok::<u32, MemoryError>(0) && new == (Graphics {
                    indices: binding,
                    ..old
                }) && new_memory == old_memory
            } else if next != 0 && (!old.index_buffers@.contains_key(next) || old.index_buffers@[next].refs == u32::MAX) {
                outcome == Ok::<u32, MemoryError>(INVALID_CALL) && new == old
                    && new_memory == old_memory
            } else if outcome is Err {
                previous != 0 && index_released(
                    new,
                    old,
                    new_memory,
                    old_memory,
                    previous,
                    outcome,
                )
            } else {
                &&& outcome == Ok::<u32, MemoryError>(0)
                &&& exists|mid: Graphics|
                    #![trigger mid.index_buffers]
                    {
                        &&& if previous != 0 {
                            index_released(
                                mid,
                                old,
                                new_memory,
                                old_memory,
                                previous,
                                Ok(index_release_status(old, previous)),
                            )
                        } else {
                            mid == old && new_memory == old_memory
                        }
                        &&& new.index_buffers@ == if next != 0 {
                            index_referenced(mid.index_buffers@, next)
                        } else {
                            mid.index_buffers@
                        }
                        &&& new == (Graphics {
                            indices: binding,
                            index_buffers: new.index_buffers,
                            ..mid
                        })
                    }
            }
        }))
}

/// What `get_indices` answers and leaves.
pub open spec fn get_indices_result(
    new: Graphics,
    old: Graphics,
    arguments: Seq<u32>,
    new_memory: GuestMemory,
    old_memory: GuestMemory,
    outcome: Result<u32, MemoryError>,
) -> bool {
    &&& (({
            let (buffer, base) = match old.indices {
                Some(pair) => pair,
                None => (0u32, 0u32),
            };
            let (first, second) = (arguments[1], arguments[2]);
            if !device_call(old, arguments[0]) || (first - second < 4 && second - first
                < 4) || (buffer != 0 && (!old.index_buffers@.contains_key(buffer) || old.index_buffers@[buffer].refs == u32::MAX)) {
                outcome == Ok::<u32, MemoryError>(INVALID_CALL) && new == old
                    && new_memory == old_memory
            } else {
                match old_memory.access(first as u64, 4, Access::Write) {
                    Err(error) => outcome == Err::<u32, MemoryError>(error) && new
                        == old && new_memory == old_memory,
                    Ok(()) => match old_memory.access(second as u64, 4, Access::Write) {
                        Err(error) => outcome == Err::<u32, MemoryError>(error) && new
                            == old && new_memory == old_memory,
                        Ok(()) => {
                            &&& outcome == Ok::<u32, MemoryError>(0)
                            &&& super::objects::stored_two(
                                new_memory,
                                old_memory,
                                first as int,
                                buffer,
                                second as int,
                                base,
                            )
                            &&& new.index_buffers@ == if buffer != 0 {
                                index_referenced(old.index_buffers@, buffer)
                            } else {
                                old.index_buffers@
                            }
                            &&& new == (Graphics {
                                index_buffers: new.index_buffers,
                                ..old
                            })
                        },
                    },
                }
            }
        }))
}

/// What `set_stream_source` answers and leaves.
pub open spec fn set_stream_source_result(
    new: Graphics,
    old: Graphics,
    arguments: Seq<u32>,
    new_memory: GuestMemory,
    old_memory: GuestMemory,
    outcome: Result<u32, MemoryError>,
) -> bool {
    &&& (({
            let previous = bound_buffer(old.stream);
            let next = arguments[2];
            let stride = arguments[3];
            let binding = binding_of(next, stride);
            if !device_call(old, arguments[0]) || arguments[1] != 0 || (next == 0
                && stride != 0) || (next != 0 && !(1 <= stride <= MAX_STRIDE)) {
                outcome == Ok::<u32, MemoryError>(INVALID_CALL) && new == old
                    && new_memory == old_memory
            } else if next == previous {
                outcome == Ok::<u32, MemoryError>(0) && new == (Graphics {
                    stream: binding,
                    ..old
                }) && new_memory == old_memory
            } else if next != 0 && (!old.vertex_buffers@.contains_key(next) || old.vertex_buffers@[next].refs == u32::MAX) {
                outcome == Ok::<u32, MemoryError>(INVALID_CALL) && new == old
                    && new_memory == old_memory
            } else if outcome is Err {
                previous != 0 && vertex_released(
                    new,
                    old,
                    new_memory,
                    old_memory,
                    previous,
                    outcome,
                )
            } else {
                &&& outcome == Ok::<u32, MemoryError>(0)
                &&& exists|mid: Graphics|
                    #![trigger mid.vertex_buffers]
                    {
                        &&& if previous != 0 {
                            vertex_released(
                                mid,
                                old,
                                new_memory,
                                old_memory,
                                previous,
                                Ok(vertex_release_status(old, previous)),
                            )
                        } else {
                            mid == old && new_memory == old_memory
                        }
                        &&& new.vertex_buffers@ == if next != 0 {
                            vertex_referenced(mid.vertex_buffers@, next)
                        } else {
                            mid.vertex_buffers@
                        }
                        &&& new == (Graphics {
                            stream: binding,
                            vertex_buffers: new.vertex_buffers,
                            ..mid
                        })
                    }
            }
        }))
}

/// What `get_stream_source` answers and leaves.
pub open spec fn get_stream_source_result(
    new: Graphics,
    old: Graphics,
    arguments: Seq<u32>,
    new_memory: GuestMemory,
    old_memory: GuestMemory,
    outcome: Result<u32, MemoryError>,
) -> bool {
    &&& (({
            let (buffer, stride) = match old.stream {
                Some(pair) => pair,
                None => (0u32, 0u32),
            };
            let (first, second) = (arguments[2], arguments[3]);
            if !device_call(old, arguments[0]) || arguments[1] != 0 || (first - second
                < 4 && second - first < 4) || (buffer != 0 && (
            !old.vertex_buffers@.contains_key(buffer) || old.vertex_buffers@[buffer].refs
                == u32::MAX)) {
                outcome == Ok::<u32, MemoryError>(INVALID_CALL) && new == old
                    && new_memory == old_memory
            } else {
                match old_memory.access(first as u64, 4, Access::Write) {
                    Err(error) => outcome == Err::<u32, MemoryError>(error) && new
                        == old && new_memory == old_memory,
                    Ok(()) => match old_memory.access(second as u64, 4, Access::Write) {
                        Err(error) => outcome == Err::<u32, MemoryError>(error) && new
                            == old && new_memory == old_memory,
                        Ok(()) => {
                            &&& outcome == Ok::<u32, MemoryError>(0)
                            &&& super::objects::stored_two(
                                new_memory,
                                old_memory,
                                first as int,
                                buffer,
                                second as int,
                                stride,
                            )
                            &&& new.vertex_buffers@ == if buffer != 0 {
                                vertex_referenced(old.vertex_buffers@, buffer)
                            } else {
                                old.vertex_buffers@
                            }
                            &&& new == (Graphics {
                                vertex_buffers: new.vertex_buffers,
                                ..old
                            })
                        },
                    },
                }
            }
        }))
}

impl Graphics {
    /// `SetIndices(buffer, base_vertex)`: binds the index buffer (or none),
    /// taking a reference to the new one and giving back the one to the
    /// buffer bound before.
    pub fn set_indices(&mut self, arguments: &[u32], memory: &mut GuestMemory) -> (outcome: Result<
        u32,
        MemoryError,
    >)
        requires
            old(self).wf(),
            old(memory).wf(),
            arguments@.len() == 3,
        ensures
            final(self).wf(),
            final(memory).wf(),
            set_indices_result(
                *final(self),
                *old(self),
                arguments@,
                *final(memory),
                *old(memory),
                outcome,
            ),
    {
        let next = arguments[1];
        let base = arguments[2];
        if arguments[0] != DEVICE || self.device_refs == 0 {
            return Ok(INVALID_CALL);
        }
        let previous = match self.indices {
            Some((buffer, _)) => buffer,
            None => 0,
        };
        let binding = if next != 0 {
            Some((next, base))
        } else {
            None
        };
        if next == previous {
            self.indices = binding;
            return Ok(0);
        }
        if next != 0 {
            match self.index_buffers.get(&next) {
                None => return Ok(INVALID_CALL),
                Some(buffer) => if buffer.refs == u32::MAX {
                    return Ok(INVALID_CALL);
                },
            }
        }
        let ghost original = *self;
        let mut status: u32 = 0;
        if previous != 0 {
            status = self.index_buffer_release(previous, memory)?;
        }
        let ghost mid = *self;
        if next != 0 {
            self.index_buffer_add_ref(next);
        }
        self.indices = binding;
        proof {
            let witness = mid;
            let answer = status;
            assert(previous != 0 ==> index_released(witness, original, *memory, *old(memory), previous, Ok(index_release_status(original, previous))));
            assert(self.index_buffers@ == if next != 0 {
                index_referenced(witness.index_buffers@, next)
            } else {
                witness.index_buffers@
            });
            assert(*self == (Graphics { indices: binding, index_buffers: self.index_buffers, ..witness }));
        }
        Ok(0)
    }

    /// `GetIndices(output_buffer, output_base)`: the bound index buffer (with
    /// a new reference) and base vertex, or zeros.
    pub fn get_indices(&mut self, arguments: &[u32], memory: &mut GuestMemory) -> (outcome: Result<
        u32,
        MemoryError,
    >)
        requires
            old(self).wf(),
            old(memory).wf(),
            arguments@.len() == 3,
        ensures
            final(self).wf(),
            final(memory).wf(),
            get_indices_result(
                *final(self),
                *old(self),
                arguments@,
                *final(memory),
                *old(memory),
                outcome,
            ),
    {
        let first = arguments[1];
        let second = arguments[2];
        let apart = if first > second {
            first - second
        } else {
            second - first
        };
        if arguments[0] != DEVICE || self.device_refs == 0 || apart < 4 {
            return Ok(INVALID_CALL);
        }
        let (buffer, base) = match self.indices {
            Some(pair) => pair,
            None => (0, 0),
        };
        if buffer != 0 {
            match self.index_buffers.get(&buffer) {
                None => return Ok(INVALID_CALL),
                Some(found) => if found.refs == u32::MAX {
                    return Ok(INVALID_CALL);
                },
            }
        }
        memory.check_access(first as u64, 4, Access::Write)?;
        memory.check_access(second as u64, 4, Access::Write)?;
        let ghost before = *memory;
        match store_word(memory, first, buffer) {
            Ok(()) => {},
            Err(error) => {
                assert(false);
                return Err(error);
            },
        }
        let ghost middle = *memory;
        match store_word(memory, second, base) {
            Ok(()) => {},
            Err(error) => {
                assert(false);
                return Err(error);
            },
        }
        proof {
            assert forall|a: int| #[trigger] memory.holds(a) implies memory.byte(a) == if second
                <= a < second + 4 {
                value_bytes(base, 4)[a - second]
            } else if first <= a < first + 4 {
                value_bytes(buffer, 4)[a - first]
            } else {
                before.byte(a)
            } by {
                assert(middle.holds(a));
            }
        }
        if buffer != 0 {
            self.index_buffer_add_ref(buffer);
        }
        Ok(0)
    }

    /// `SetStreamSource(0, buffer, stride)`: binds the vertex buffer (or
    /// none) with a stride up to `MAX_STRIDE`, taking a reference to the new
    /// one and giving back the one to the buffer bound before.
    pub fn set_stream_source(&mut self, arguments: &[u32], memory: &mut GuestMemory) -> (outcome:
        Result<u32, MemoryError>)
        requires
            old(self).wf(),
            old(memory).wf(),
            arguments@.len() == 4,
        ensures
            final(self).wf(),
            final(memory).wf(),
            set_stream_source_result(
                *final(self),
                *old(self),
                arguments@,
                *final(memory),
                *old(memory),
                outcome,
            ),
    {
        let next = arguments[2];
        let stride = arguments[3];
        if arguments[0] != DEVICE || self.device_refs == 0 || arguments[1] != 0 || (next == 0
            && stride != 0) || (next != 0 && !(1 <= stride && stride <= MAX_STRIDE)) {
            return Ok(INVALID_CALL);
        }
        let previous = match self.stream {
            Some((buffer, _)) => buffer,
            None => 0,
        };
        let binding = if next != 0 {
            Some((next, stride))
        } else {
            None
        };
        if next == previous {
            self.stream = binding;
            return Ok(0);
        }
        if next != 0 {
            match self.vertex_buffers.get(&next) {
                None => return Ok(INVALID_CALL),
                Some(buffer) => if buffer.refs == u32::MAX {
                    return Ok(INVALID_CALL);
                },
            }
        }
        let ghost original = *self;
        let mut status: u32 = 0;
        if previous != 0 {
            status = self.vertex_buffer_release(previous, memory)?;
        }
        let ghost mid = *self;
        if next != 0 {
            self.vertex_buffer_add_ref(next);
        }
        self.stream = binding;
        proof {
            let witness = mid;
            let answer = status;
            assert(previous != 0 ==> vertex_released(witness, original, *memory, *old(memory), previous, Ok(vertex_release_status(original, previous))));
            assert(self.vertex_buffers@ == if next != 0 {
                vertex_referenced(witness.vertex_buffers@, next)
            } else {
                witness.vertex_buffers@
            });
            assert(*self == (Graphics { stream: binding, vertex_buffers: self.vertex_buffers, ..witness }));
        }
        Ok(0)
    }

    /// `GetStreamSource(0, output_buffer, output_stride)`: the bound vertex
    /// buffer (with a new reference) and stride, or zeros.
    pub fn get_stream_source(&mut self, arguments: &[u32], memory: &mut GuestMemory) -> (outcome:
        Result<u32, MemoryError>)
        requires
            old(self).wf(),
            old(memory).wf(),
            arguments@.len() == 4,
        ensures
            final(self).wf(),
            final(memory).wf(),
            get_stream_source_result(
                *final(self),
                *old(self),
                arguments@,
                *final(memory),
                *old(memory),
                outcome,
            ),
    {
        let first = arguments[2];
        let second = arguments[3];
        let apart = if first > second {
            first - second
        } else {
            second - first
        };
        if arguments[0] != DEVICE || self.device_refs == 0 || arguments[1] != 0 || apart < 4 {
            return Ok(INVALID_CALL);
        }
        let (buffer, stride) = match self.stream {
            Some(pair) => pair,
            None => (0, 0),
        };
        if buffer != 0 {
            match self.vertex_buffers.get(&buffer) {
                None => return Ok(INVALID_CALL),
                Some(found) => if found.refs == u32::MAX {
                    return Ok(INVALID_CALL);
                },
            }
        }
        memory.check_access(first as u64, 4, Access::Write)?;
        memory.check_access(second as u64, 4, Access::Write)?;
        let ghost before = *memory;
        match store_word(memory, first, buffer) {
            Ok(()) => {},
            Err(error) => {
                assert(false);
                return Err(error);
            },
        }
        let ghost middle = *memory;
        match store_word(memory, second, stride) {
            Ok(()) => {},
            Err(error) => {
                assert(false);
                return Err(error);
            },
        }
        proof {
            assert forall|a: int| #[trigger] memory.holds(a) implies memory.byte(a) == if second
                <= a < second + 4 {
                value_bytes(stride, 4)[a - second]
            } else if first <= a < first + 4 {
                value_bytes(buffer, 4)[a - first]
            } else {
                before.byte(a)
            } by {
                assert(middle.holds(a));
            }
        }
        if buffer != 0 {
            self.vertex_buffer_add_ref(buffer);
        }
        Ok(0)
    }
}

} // verus!
