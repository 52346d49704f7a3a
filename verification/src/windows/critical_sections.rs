//! Critical sections with immediate acquisition: each initialized section is
//! tracked by its guest address, and its guest-visible fields must match the
//! tracked state on every use.
use super::guest::{check, check_outcome, read_words, words_at, words_bytes, write_words};
use super::DispatchError;
use crate::cpu::wrapped;
use crate::memory::{Access, GuestMemory};
use std::collections::BTreeMap;
use vstd::prelude::*;

verus! {

broadcast use vstd::std_specs::btree::group_btree_axioms;

/// The most sections tracked at once.
pub const MAX_OBJECTS: usize = 4096;

/// The size in bytes of a guest critical section.
pub const SIZE: usize = 24;

/// The critical-section functions, by their offset in the emulated table.
#[derive(Clone, Copy, Debug, PartialEq, Eq, Structural)]
pub enum Call {
    Initialize,
    Enter,
    TryEnter,
    Leave,
    Delete,
}

impl Call {
    /// The function at `offset`, if it is one of these.
    pub fn at(offset: u32) -> (call: Option<Call>)
        ensures
            call == (if offset == 0x34 {
                Some(Call::Initialize)
            } else if offset == 0x38 {
                Some(Call::Enter)
            } else if offset == 0x3c {
                Some(Call::TryEnter)
            } else if offset == 0x60 {
                Some(Call::Leave)
            } else if offset == 0x64 {
                Some(Call::Delete)
            } else {
                None
            }),
    {
        match offset {
            0x34 => Some(Call::Initialize),
            0x38 => Some(Call::Enter),
            0x3c => Some(Call::TryEnter),
            0x60 => Some(Call::Leave),
            0x64 => Some(Call::Delete),
            _ => None,
        }
    }
}

/// Who holds a section and how many times.
#[derive(Clone, Copy, Debug, PartialEq, Eq, Structural)]
pub struct Ownership {
    pub owner: u32,
    pub depth: u32,
}

impl Default for Ownership {
    /// Not held.
    fn default() -> (unowned: Self)
        ensures
            unowned == (Ownership { owner: 0, depth: 0 }),
    {
        Ownership { owner: 0, depth: 0 }
    }
}

/// The six guest-visible dwords of a section in `state`: no debug record, a
/// lock count one below the recursion count, the recursion count, the owning
/// thread, and no semaphore or spin count.
pub open spec fn representation_of(state: Ownership) -> Seq<u32> {
    seq![0, wrapped(state.depth - 1), state.depth, state.owner, 0, 0]
}

/// The guest-visible dwords of a section in `state`.
pub fn representation(state: Ownership) -> (words: [u32; 6])
    ensures
        words@ == representation_of(state),
{
    let words = [0, state.depth.wrapping_sub(1), state.depth, state.owner, 0, 0];
    assert(words@ =~= representation_of(state));
    words
}

/// Stores the six dwords of a section at `pointer`, all or nothing.
pub fn write_object(memory: &mut GuestMemory, pointer: u32, words: [u32; 6]) -> (outcome: Result<
    (),
    DispatchError,
>)
    requires
        old(memory).wf(),
    ensures
        final(memory).wf(),
        outcome == check_outcome(*old(memory), pointer, SIZE as int, Access::Write),
        outcome is Ok ==> final(memory).wrote(*old(memory), pointer as int, words_bytes(words@)),
        outcome is Err ==> *final(memory) == *old(memory),
{
    write_words(memory, pointer, &words)
}

/// Whether two sets of six dwords are the same.
fn same_words(left: &[u32; 6], right: &[u32; 6]) -> (same: bool)
    ensures
        same == (left@ == right@),
{
    let mut i: usize = 0;
    while i < 6
        invariant
            i <= 6,
            forall|j: int| 0 <= j < i ==> left@[j] == right@[j],
        decreases 6 - i,
    {
        if left[i] != right[i] {
            return false;
        }
        i = i + 1;
    }
    assert(left@ =~= right@);
    true
}

/// The tracked sections, by guest address.
pub struct CriticalSections {
    pub objects: BTreeMap<u64, Ownership>,
}

impl Default for CriticalSections {
    /// No sections.
    fn default() -> (sections: Self)
        ensures
            sections.wf(),
            sections.objects@ == Map::<u64, Ownership>::empty(),
    {
        CriticalSections { objects: BTreeMap::new() }
    }
}

/// Whether a tracked section overlaps the `SIZE` bytes at `address`.
pub open spec fn overlapping(objects: Map<u64, Ownership>, address: int) -> bool {
    exists|start: u64| #[trigger]
        objects.contains_key(start) && start < address + SIZE && address < start + SIZE
}

/// What a call does to the tracked sections and to memory: `Initialize`
/// records an unowned section (refused at the cap or over another section);
/// the others need a tracked section whose guest fields still match, and then
/// enter (recursively, up to `i32::MAX`), try to enter (0 when another thread
/// holds it), leave (by the owner only) or delete (only when not held).
pub open spec fn dispatched(
    objects: Map<u64, Ownership>,
    memory: GuestMemory,
    call: Call,
    pointer: u32,
    actor: u32,
    new_objects: Map<u64, Ownership>,
    new_memory: GuestMemory,
    outcome: Result<Option<u32>, DispatchError>,
) -> bool {
    let address = pointer as u64;
    let unchanged = new_objects == objects && new_memory == memory;
    if call == Call::Initialize {
        match check_outcome(memory, pointer, SIZE as int, Access::Write) {
            Err(error) => outcome == Err::<Option<u32>, DispatchError>(error) && unchanged,
            Ok(()) => if objects.len() == MAX_OBJECTS || overlapping(objects, address as int) {
                outcome == Err::<Option<u32>, DispatchError>(DispatchError::Unsupported)
                    && unchanged
            } else {
                let unowned = Ownership { owner: 0, depth: 0 };
                &&& outcome == Ok::<Option<u32>, DispatchError>(None)
                &&& new_objects == objects.insert(address, unowned)
                &&& new_memory.wf()
                &&& new_memory.wrote(memory, pointer as int, words_bytes(representation_of(unowned)))
            },
        }
    } else if !objects.contains_key(address) {
        outcome == Err::<Option<u32>, DispatchError>(DispatchError::Unsupported) && unchanged
    } else {
        let state = objects[address];
        match check_outcome(memory, pointer, 24, Access::Read) {
            Err(error) => outcome == Err::<Option<u32>, DispatchError>(error) && unchanged,
            Ok(()) => if words_at(memory, pointer, 6) != representation_of(state) {
                outcome == Err::<Option<u32>, DispatchError>(DispatchError::Unsupported)
                    && unchanged
            } else if call == Call::TryEnter && state.depth != 0 && state.owner != actor {
                outcome == Ok::<Option<u32>, DispatchError>(Some(0)) && unchanged
            } else {
                let enters = call == Call::Enter || call == Call::TryEnter;
                let allowed = if enters {
                    (state.depth == 0 || state.owner == actor) && state.depth < 0x7fff_ffff
                } else if call == Call::Leave {
                    state.depth > 0 && state.owner == actor
                } else {
                    state.depth == 0
                };
                let depth: u32 = if enters {
                    (state.depth + 1) as u32
                } else if call == Call::Leave {
                    (state.depth - 1) as u32
                } else {
                    0
                };
                let next = Ownership {
                    owner: if depth == 0 {
                        0
                    } else {
                        actor
                    },
                    depth,
                };
                let deleting = call == Call::Delete;
                if !allowed {
                    outcome == Err::<Option<u32>, DispatchError>(DispatchError::Unsupported)
                        && unchanged
                } else {
                    match check_outcome(memory, pointer, SIZE as int, Access::Write) {
                        Err(error) => outcome == Err::<Option<u32>, DispatchError>(error)
                            && unchanged,
                        Ok(()) => {
                            &&& outcome == Ok::<Option<u32>, DispatchError>(
                                if call == Call::TryEnter {
                                    Some(1)
                                } else {
                                    None
                                },
                            )
                            &&& new_memory.wf()
                            &&& new_memory.wrote(
                                memory,
                                pointer as int,
                                words_bytes(
                                    if deleting {
                                        seq![0u32, 0, 0, 0, 0, 0]
                                    } else {
                                        representation_of(next)
                                    },
                                ),
                            )
                            &&& new_objects == if deleting {
                                objects.remove(address)
                            } else {
                                objects.insert(address, next)
                            }
                        },
                    }
                }
            },
        }
    }
}

impl CriticalSections {
    /// At most `MAX_OBJECTS` sections, at 32-bit addresses, none overlapping
    /// another.
    pub open spec fn wf(&self) -> bool {
        &&& self.objects@.len() <= MAX_OBJECTS
        &&& self.objects@.dom().finite()
        &&& forall|start: u64| #[trigger] self.objects@.contains_key(start) ==> start <= u32::MAX
        &&& forall|first: u64, second: u64|
            #![trigger self.objects@.contains_key(first), self.objects@.contains_key(second)]
            self.objects@.contains_key(first) && self.objects@.contains_key(second) && first
                != second ==> first + SIZE <= second || second + SIZE <= first
    }

    /// Whether a tracked section overlaps the section that would start at
    /// `address`.
    fn overlaps_object(&self, address: u64) -> (found: bool)
        requires
            address <= u32::MAX,
        ensures
            found == overlapping(self.objects@, address as int),
    {
        let low = if address >= 23 {
            address - 23
        } else {
            0
        };
        let mut candidate = low;
        while candidate < address + 24
            invariant
                address <= u32::MAX,
                low <= candidate <= address + 24,
                low == if address >= 23 {
                    address - 23
                } else {
                    0
                },
                forall|start: u64|
                    low <= start < candidate ==> !#[trigger] self.objects@.contains_key(start),
            decreases address + 24 - candidate,
        {
            if self.objects.contains_key(&candidate) {
                return true;
            }
            candidate = candidate + 1;
        }
        false
    }

    /// Performs `call` on the section at `pointer` for thread `actor`; gives
    /// the value for `eax` where the call has one.
    pub fn dispatch(&mut self, call: Call, pointer: u32, actor: u32, memory: &mut GuestMemory) -> (outcome:
        Result<Option<u32>, DispatchError>)
        requires
            old(self).wf(),
            old(memory).wf(),
        ensures
            final(self).wf(),
            final(memory).wf(),
            dispatched(
                old(self).objects@,
                *old(memory),
                call,
                pointer,
                actor,
                final(self).objects@,
                *final(memory),
                outcome,
            ),
    {
        let address = pointer as u64;
        if call == Call::Initialize {
            check(memory, pointer, SIZE, Access::Write)?;
            if self.objects.len() == MAX_OBJECTS || self.overlaps_object(address) {
                return Err(DispatchError::Unsupported);
            }
            let unowned = Ownership::default();
            write_object(memory, pointer, representation(unowned))?;
            self.objects.insert(address, unowned);
            return Ok(None);
        }
        let state = match self.objects.get(&address) {
            Some(state) => *state,
            None => return Err(DispatchError::Unsupported),
        };
        let mut words = [0u32; 6];
        read_words(memory, pointer, &mut words)?;
        if !same_words(&words, &representation(state)) {
            return Err(DispatchError::Unsupported);
        }
        if call == Call::TryEnter && state.depth != 0 && state.owner != actor {
            return Ok(Some(0));
        }
        let enters = call == Call::Enter || call == Call::TryEnter;
        let depth = if enters && (state.depth == 0 || state.owner == actor) && state.depth
            < 0x7fff_ffff {
            state.depth + 1
        } else if call == Call::Leave && state.depth > 0 && state.owner == actor {
            state.depth - 1
        } else if call == Call::Delete && state.depth == 0 {
            0
        } else {
            return Err(DispatchError::Unsupported);
        };
        let next = Ownership {
            owner: if depth == 0 {
                0
            } else {
                actor
            },
            depth,
        };
        let deleting = call == Call::Delete;
        let words = if deleting {
            [0u32; 6]
        } else {
            representation(next)
        };
        write_object(memory, pointer, words)?;
        if deleting {
            self.objects.remove(&address);
        } else {
            self.objects.insert(address, next);
        }
        if call == Call::TryEnter {
            Ok(Some(1))
        } else {
            Ok(None)
        }
    }
}

} // verus!

verus! {

/// A refused call changes nothing: neither the tracked sections nor memory.
pub proof fn law_refusal_changes_nothing(
    objects: Map<u64, Ownership>,
    memory: GuestMemory,
    call: Call,
    pointer: u32,
    actor: u32,
    new_objects: Map<u64, Ownership>,
    new_memory: GuestMemory,
    error: DispatchError,
)
    requires
        dispatched(
            objects,
            memory,
            call,
            pointer,
            actor,
            new_objects,
            new_memory,
            Err(error),
        ),
    ensures
        new_objects == objects,
        new_memory == memory,
{
}

/// Deleting a section frees its place under the cap.
pub proof fn law_delete_reclaims(
    objects: Map<u64, Ownership>,
    memory: GuestMemory,
    pointer: u32,
    actor: u32,
    new_objects: Map<u64, Ownership>,
    new_memory: GuestMemory,
    result: Option<u32>,
)
    requires
        objects.dom().finite(),
        dispatched(
            objects,
            memory,
            Call::Delete,
            pointer,
            actor,
            new_objects,
            new_memory,
            Ok(result),
        ),
    ensures
        !new_objects.contains_key(pointer as u64),
        new_objects.len() == objects.len() - 1,
{
}

/// Entering and then leaving by the same thread gives the section back the
/// ownership it had, where an unheld section has no owner.
pub proof fn law_enter_then_leave(
    objects: Map<u64, Ownership>,
    memory: GuestMemory,
    pointer: u32,
    actor: u32,
    entered: Map<u64, Ownership>,
    entered_memory: GuestMemory,
    left: Map<u64, Ownership>,
    left_memory: GuestMemory,
    first: Option<u32>,
    second: Option<u32>,
)
    requires
        objects.contains_key(pointer as u64),
        objects[pointer as u64].depth == 0 ==> objects[pointer as u64].owner == 0,
        dispatched(
            objects,
            memory,
            Call::Enter,
            pointer,
            actor,
            entered,
            entered_memory,
            Ok(first),
        ),
        dispatched(
            entered,
            entered_memory,
            Call::Leave,
            pointer,
            actor,
            left,
            left_memory,
            Ok(second),
        ),
    ensures
        left == objects,
{
    assert(left =~= objects);
}

} // verus!
