//! `_splitpath`: cuts a path into drive, directory, file name and extension
//! and copies each part that the caller asked for.
use super::super::guest::{check, check_outcome};
use super::super::DispatchError;
use super::multibyte::CodePage;
use super::strings::{bytes_at, length_from, terminated_bytes, LIMIT};
use crate::memory::{Access, GuestMemory};
use vstd::prelude::*;

verus! {

/// Whether `byte` is what is looked for: a dot, or else a path separator.
pub open spec fn marks(byte: u8, dot: bool) -> bool {
    if dot {
        byte == 0x2e
    } else {
        byte == 0x2f || byte == 0x5c
    }
}

/// The last index in `[from, end)` of `path` whose byte `marks`.
pub open spec fn last_mark(path: Seq<u8>, from: int, end: int, dot: bool) -> Option<int>
    decreases end - from,
{
    if end <= from {
        None
    } else if marks(path[end - 1], dot) {
        Some(end - 1)
    } else {
        last_mark(path, from, end - 1, dot)
    }
}

/// Where the drive ends: after `X:`, if the path starts so.
pub open spec fn drive_end(path: Seq<u8>) -> int {
    if path.len() > 1 && path[1] == 0x3a {
        2
    } else {
        0
    }
}

/// Where the directory ends: after its last separator.
pub open spec fn directory_end(path: Seq<u8>) -> int {
    match last_mark(path, drive_end(path), path.len() as int, false) {
        Some(index) => index + 1,
        None => drive_end(path),
    }
}

/// Where the file name ends: at the last dot after the directory.
pub open spec fn name_end(path: Seq<u8>) -> int {
    match last_mark(path, directory_end(path), path.len() as int, true) {
        Some(index) => index,
        None => path.len() as int,
    }
}

/// The drive, directory, file name and extension of `path`.
pub open spec fn path_parts(path: Seq<u8>) -> Seq<Seq<u8>> {
    seq![
        path.subrange(0, drive_end(path)),
        path.subrange(drive_end(path), directory_end(path)),
        path.subrange(directory_end(path), name_end(path)),
        path.subrange(name_end(path), path.len() as int),
    ]
}

/// The bytes part `index` takes with its terminator.
pub open spec fn part_size(parts: Seq<Seq<u8>>, index: int) -> int {
    parts[index].len() + 1int
}

/// Whether `[left, left + left_length)` and `[right, right + right_length)`
/// meet.
pub open spec fn spans_meet(left: int, left_length: int, right: int, right_length: int) -> bool {
    left < right + right_length && right < left + left_length
}

/// The room a part has: three bytes for the drive, 256 for the others.
pub open spec fn part_room(index: int) -> int {
    if index == 0 {
        3
    } else {
        256
    }
}

/// Whether the request for part `index` is refused: it does not fit its
/// room, or its buffer meets the source or the buffer of an earlier part.
pub open spec fn refused(
    outputs: Seq<u32>,
    parts: Seq<Seq<u8>>,
    source: u32,
    source_length: int,
    index: int,
) -> bool {
    let length = part_size(parts, index);
    ||| length > part_room(index)
    ||| spans_meet(outputs[index] as int, length, source as int, source_length)
    ||| exists|prior: int|
        0 <= prior < index && outputs[prior] != 0 && #[trigger] spans_meet(
            outputs[index] as int,
            length,
            outputs[prior] as int,
            part_size(parts, prior),
        )
}

/// The checks of the requests `index..4`, in order.
pub open spec fn requests_from(
    memory: GuestMemory,
    outputs: Seq<u32>,
    parts: Seq<Seq<u8>>,
    source: u32,
    source_length: int,
    index: int,
) -> Result<(), DispatchError>
    decreases 4 - index,
{
    if index >= 4 || index < 0 {
        Ok(())
    } else if outputs[index] == 0 {
        requests_from(memory, outputs, parts, source, source_length, index + 1)
    } else if refused(outputs, parts, source, source_length, index) {
        Err(DispatchError::Unsupported)
    } else {
        match check_outcome(memory, outputs[index], part_size(parts, index), Access::Write) {
            Err(error) => Err(error),
            Ok(()) => requests_from(memory, outputs, parts, source, source_length, index + 1),
        }
    }
}

/// What `_splitpath(arguments[0], drive, directory, name, extension)` does:
/// the parts it copies, or why it copies none.
pub open spec fn split_outcome(memory: GuestMemory, arguments: Seq<u32>) -> Result<
    Seq<Seq<u8>>,
    DispatchError,
> {
    let source = arguments[0];
    if source == 0 {
        Err(DispatchError::Unsupported)
    } else {
        match length_from(memory, source, 0, LIMIT as int, Err(DispatchError::Unsupported)) {
            Err(error) => Err(error),
            Ok(length) => {
                let parts = path_parts(bytes_at(memory, source, length as int));
                match requests_from(
                    memory,
                    arguments.subrange(1, 5),
                    parts,
                    source,
                    length + 1,
                    0,
                ) {
                    Err(error) => Err(error),
                    Ok(()) => Ok(parts),
                }
            },
        }
    }
}

/// The byte at `a` once the parts `0..=last` were copied, each with its
/// terminator, to their non-null buffers; `fallback` where none was.
pub open spec fn copied_byte(outputs: Seq<u32>, parts: Seq<Seq<u8>>, a: int, last: int, fallback: u8) -> u8
    decreases last + 1,
{
    if last < 0 {
        fallback
    } else if outputs[last] != 0 && outputs[last] <= a < outputs[last] + part_size(parts, last) {
        parts[last].push(0)[a - outputs[last]]
    } else {
        copied_byte(outputs, parts, a, last - 1, fallback)
    }
}

/// Requests that all pass leave every non-null buffer writable.
proof fn lemma_requests_writable(
    memory: GuestMemory,
    outputs: Seq<u32>,
    parts: Seq<Seq<u8>>,
    source: u32,
    source_length: int,
    index: int,
)
    requires
        0 <= index <= 4,
        requests_from(memory, outputs, parts, source, source_length, index) is Ok,
    ensures
        forall|j: int|
            index <= j < 4 && outputs[j] != 0 ==> #[trigger] check_outcome(
                memory,
                outputs[j],
                part_size(parts, j),
                Access::Write,
            ) is Ok,
    decreases 4 - index,
{
    if index < 4 {
        lemma_requests_writable(memory, outputs, parts, source, source_length, index + 1);
    }
}

/// Where each part starts and ends in `path`.
pub open spec fn bounds_hold(starts: Seq<usize>, ends: Seq<usize>, parts: Seq<Seq<u8>>, path: Seq<u8>) -> bool {
    &&& starts.len() == 4
    &&& ends.len() == 4
    &&& forall|j: int|
        #![trigger starts[j]]
        #![trigger ends[j]]
        #![trigger parts[j]]
        0 <= j < 4 ==> starts[j] <= ends[j] <= path.len() && parts[j] == path.subrange(
            starts[j] as int,
            ends[j] as int,
        )
}

/// The last index in `[from, end)` of `path` whose byte `marks`.
fn last_position(path: &Vec<u8>, from: usize, end: usize, dot: bool) -> (found: Option<usize>)
    requires
        from <= end <= path@.len(),
    ensures
        match last_mark(path@, from as int, end as int, dot) {
            Some(index) => found matches Some(position) && position == index,
            None => found is None,
        },
        found matches Some(index) ==> from <= index < end,
{
    let mut position = end;
    while position > from
        invariant
            from <= position <= end <= path@.len(),
            last_mark(path@, from as int, end as int, dot) == last_mark(
                path@,
                from as int,
                position as int,
                dot,
            ),
        decreases position,
    {
        let byte = path[position - 1];
        let found = if dot {
            byte == 0x2e
        } else {
            byte == 0x2f || byte == 0x5c
        };
        if found {
            return Some(position - 1);
        }
        position = position - 1;
    }
    None
}

impl CodePage {
    /// Splits the path at `arguments[0]` and copies its drive, directory,
    /// file name and extension, each with a terminator, to the buffers at
    /// `arguments[1..5]` that are not null. Every request is checked before
    /// anything is written.
    pub fn split_path(self, memory: &mut GuestMemory, arguments: &[u32]) -> (outcome: Result<
        (),
        DispatchError,
    >)
        requires
            old(memory).wf(),
            arguments@.len() >= 5,
        ensures
            final(memory).wf(),
            match split_outcome(*old(memory), arguments@) {
                Err(error) => outcome == Err::<(), DispatchError>(error) && *final(memory) == *old(
                    memory,
                ),
                Ok(parts) => {
                    &&& outcome is Ok
                    &&& final(memory).pages() == old(memory).pages()
                    &&& final(memory).limit() == old(memory).limit()
                    &&& forall|a: int| #[trigger]
                        final(memory).holds(a) ==> final(memory).byte(a) == copied_byte(
                            arguments@.subrange(1, 5),
                            parts,
                            a,
                            3,
                            old(memory).byte(a),
                        )
                },
            },
    {
        let source_address = arguments[0];
        if source_address == 0 {
            return Err(DispatchError::Unsupported);
        }
        let source = terminated_bytes(memory, source_address)?;
        let ghost outputs = arguments@.subrange(1, 5);
        let length = source.len() - 1;
        proof {
            super::strings::lemma_length_readable(
                *memory,
                source_address,
                0,
                LIMIT as int,
                Err(DispatchError::Unsupported),
            );
        }
        let mut path: Vec<u8> = Vec::new();
        let mut k: usize = 0;
        while k < length
            invariant
                length + 1 == source@.len(),
                k <= length,
                path@ == source@.subrange(0, k as int),
            decreases length - k,
        {
            path.push(source[k]);
            assert(path@ =~= source@.subrange(0, k + 1));
            k = k + 1;
        }
        proof {
            assert(path@ =~= bytes_at(*old(memory), source_address, length as int));
        }
        let drive: usize = if length > 1 && path[1] == 0x3a {
            2
        } else {
            0
        };
        let separator = last_position(&path, drive, length, false);
        let directory: usize = match separator {
            Some(index) => index + 1,
            None => drive,
        };
        let dot = last_position(&path, directory, length, true);
        let name: usize = match dot {
            Some(index) => index,
            None => length,
        };
        let mut starts: Vec<usize> = Vec::new();
        starts.push(0);
        starts.push(drive);
        starts.push(directory);
        starts.push(name);
        let mut ends: Vec<usize> = Vec::new();
        ends.push(drive);
        ends.push(directory);
        ends.push(name);
        ends.push(length);
        let ghost parts = path_parts(path@);
        proof {
            assert(drive as int == drive_end(path@));
            assert(directory as int == directory_end(path@));
            assert(name as int == name_end(path@));
            assert(bounds_hold(starts@, ends@, parts, path@));
            assert(split_outcome(*old(memory), arguments@) == match requests_from(
                *old(memory),
                outputs,
                parts,
                source_address,
                length + 1,
                0,
            ) {
                Err(error) => Err(error),
                Ok(()) => Ok::<Seq<Seq<u8>>, DispatchError>(parts),
            });
        }
        let mut index: usize = 0;
        while index < 4
            invariant
                memory.wf(),
                *memory == *old(memory),
                arguments@.len() >= 5,
                outputs == arguments@.subrange(1, 5),
                source_address == arguments@[0],
                index <= 4,
                length + 1 == source@.len(),
                length <= LIMIT,
                path@.len() == length,
                bounds_hold(starts@, ends@, parts, path@),
                split_outcome(*old(memory), arguments@) == match requests_from(
                    *old(memory),
                    outputs,
                    parts,
                    source_address,
                    length + 1,
                    0,
                ) {
                    Err(error) => Err(error),
                    Ok(()) => Ok::<Seq<Seq<u8>>, DispatchError>(parts),
                },
                requests_from(*memory, outputs, parts, source_address, length + 1, 0)
                    == requests_from(
                    *memory,
                    outputs,
                    parts,
                    source_address,
                    length + 1,
                    index as int,
                ),
            decreases 4 - index,
        {
            let address = arguments[index + 1];
            if address != 0 {
                let size = ends[index] - starts[index] + 1;
                let room: usize = if index == 0 {
                    3
                } else {
                    256
                };
                if size > room || ((address as u64) < source_address as u64 + source.len() as u64
                    && (source_address as u64) < address as u64 + size as u64) {
                    return Err(DispatchError::Unsupported);
                }
                let mut prior: usize = 0;
                while prior < index
                    invariant
                        memory.wf(),
                        index < 4,
                        prior <= index,
                        arguments@.len() >= 5,
                        outputs == arguments@.subrange(1, 5),
                        source_address == arguments@[0],
                        address == outputs[index as int],
                        address != 0,
                        size == part_size(parts, index as int),
                        size <= 256,
                        *memory == *old(memory),
                        length + 1 == source@.len(),
                        length <= LIMIT,
                        path@.len() == length,
                        bounds_hold(starts@, ends@, parts, path@),
                        split_outcome(*old(memory), arguments@) == match requests_from(
                            *old(memory),
                            outputs,
                            parts,
                            source_address,
                            length + 1,
                            0,
                        ) {
                            Err(error) => Err(error),
                            Ok(()) => Ok::<Seq<Seq<u8>>, DispatchError>(parts),
                        },
                        requests_from(*memory, outputs, parts, source_address, length + 1, 0)
                            == requests_from(
                            *memory,
                            outputs,
                            parts,
                            source_address,
                            length + 1,
                            index as int,
                        ),
                        forall|j: int|
                            0 <= j < prior && outputs[j] != 0 ==> !#[trigger] spans_meet(
                                address as int,
                                size as int,
                                outputs[j] as int,
                                part_size(parts, j),
                            ),
                    decreases index - prior,
                {
                    let other = arguments[prior + 1];
                    let other_size = ends[prior] - starts[prior] + 1;
                    if other != 0 && (address as u64) < other as u64 + other_size as u64
                        && (other as u64) < address as u64 + size as u64 {
                        assert(spans_meet(
                            address as int,
                            size as int,
                            outputs[prior as int] as int,
                            part_size(parts, prior as int),
                        ));
                        assert(refused(outputs, parts, source_address, length + 1, index as int));
                        return Err(DispatchError::Unsupported);
                    }
                    prior = prior + 1;
                }
                assert(!refused(outputs, parts, source_address, length + 1, index as int));
                check(memory, address, size, Access::Write)?;
            }
            index = index + 1;
        }
        proof {
            lemma_requests_writable(*memory, outputs, parts, source_address, length + 1, 0);
        }
        let ghost checked = *memory;
        let mut index: usize = 0;
        while index < 4
            invariant
                memory.wf(),
                checked == *old(memory),
                memory.pages() == checked.pages(),
                memory.limit() == checked.limit(),
                arguments@.len() >= 5,
                outputs == arguments@.subrange(1, 5),
                index <= 4,
                path@.len() == length,
                bounds_hold(starts@, ends@, parts, path@),
                forall|j: int|
                    0 <= j < 4 && outputs[j] != 0 ==> #[trigger] check_outcome(
                        checked,
                        outputs[j],
                        part_size(parts, j),
                        Access::Write,
                    ) is Ok,
                forall|a: int| #[trigger]
                    memory.holds(a) ==> memory.byte(a) == copied_byte(
                        outputs,
                        parts,
                        a,
                        index - 1,
                        checked.byte(a),
                    ),
            decreases 4 - index,
        {
            let address = arguments[index + 1];
            if address != 0 {
                let start = starts[index];
                let end = ends[index];
                let mut data: Vec<u8> = Vec::new();
                let mut k: usize = start;
                while k < end
                    invariant
                        start <= k <= end <= path@.len(),
                        data@ == path@.subrange(start as int, k as int),
                    decreases end - k,
                {
                    data.push(path[k]);
                    assert(data@ =~= path@.subrange(start as int, k + 1));
                    k = k + 1;
                }
                data.push(0);
                let ghost before = *memory;
                proof {
                    assert(data@ =~= parts[index as int].push(0));
                    assert(check_outcome(
                        checked,
                        outputs[index as int],
                        part_size(parts, index as int),
                        Access::Write,
                    ) is Ok);
                }
                match memory.write(address as u64, data.as_slice()) {
                    Ok(()) => {},
                    Err(error) => {
                        assert(false);
                        return Err(DispatchError::Memory(error));
                    },
                }
                proof {
                    assert forall|a: int| #[trigger] memory.holds(a) implies memory.byte(a)
                        == copied_byte(outputs, parts, a, index as int, checked.byte(a)) by {
                        assert(before.holds(a));
                    }
                }
            }
            index = index + 1;
        }
        Ok(())
    }
}

} // verus!
