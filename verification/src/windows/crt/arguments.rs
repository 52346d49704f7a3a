//! `__getmainargs`: hands the program `argc`, `argv` and `environ`, and
//! takes its choice of the new-handler mode.
use super::super::guest::{check, check_outcome, read_word, read_words, word_outcome, words_at, write_word};
use super::super::DispatchError;
use super::data::ARGC;
use crate::cpu::operands::value_bytes;
use crate::memory::{Access, GuestMemory};
use vstd::prelude::*;

verus! {

/// The byte at `a` once `values[0..=last]` were stored, in order, as dwords
/// at `targets[0..=last]`; `fallback` where none was.
pub open spec fn stored_byte(targets: Seq<u32>, values: Seq<u32>, a: int, last: int, fallback: u8) -> u8
    decreases last + 1,
{
    if last < 0 {
        fallback
    } else if targets[last] <= a < targets[last] + 4 {
        value_bytes(values[last], 4)[a - targets[last]]
    } else {
        stored_byte(targets, values, a, last - 1, fallback)
    }
}

/// The checks of the three output cells `targets[index..3]`.
pub open spec fn cells_from(memory: GuestMemory, targets: Seq<u32>, index: int) -> Result<(), DispatchError>
    decreases 3 - index,
{
    if index >= 3 || index < 0 {
        Ok(())
    } else {
        match check_outcome(memory, targets[index], 4, Access::Write) {
            Err(error) => Err(error),
            Ok(()) => cells_from(memory, targets, index + 1),
        }
    }
}

/// What `__getmainargs(&argc, &argv, &env, wildcards, &startup)` decides,
/// with `mode` the new-handler mode so far: the mode it leaves, or why it
/// is refused.
pub open spec fn main_args_outcome(memory: GuestMemory, mode: u32, arguments: Seq<u32>) -> Result<
    u32,
    DispatchError,
> {
    if arguments[3] != 0 {
        Err(DispatchError::Unsupported)
    } else {
        let chosen = if arguments[4] != 0 {
            match word_outcome(memory, arguments[4]) {
                Err(error) => Err(error),
                Ok(value) => if value > 1 {
                    Err(DispatchError::Unsupported)
                } else {
                    Ok(value)
                },
            }
        } else {
            Ok(mode)
        };
        match chosen {
            Err(error) => Err(error),
            Ok(chosen) => match check_outcome(memory, ARGC, 12, Access::Read) {
                Err(error) => Err(error),
                Ok(()) => match cells_from(memory, arguments.subrange(0, 3), 0) {
                    Err(error) => Err(error),
                    Ok(()) => Ok(chosen),
                },
            },
        }
    }
}

/// Lemma: cells that all pass are each writable.
proof fn lemma_cells_writable(memory: GuestMemory, targets: Seq<u32>, index: int)
    requires
        0 <= index <= 3,
        cells_from(memory, targets, index) is Ok,
    ensures
        forall|j: int|
            index <= j < 3 ==> #[trigger] check_outcome(memory, targets[j], 4, Access::Write) is Ok,
    decreases 3 - index,
{
    if index < 3 {
        lemma_cells_writable(memory, targets, index + 1);
    }
}

/// Stores `argc`, `argv` and `environ` at `arguments[0..3]` and, where
/// `arguments[4]` points at a startup record, takes the new-handler mode
/// from it into `new_mode`. Nothing changes when the call is refused.
pub fn get_main(new_mode: &mut u32, arguments: &[u32], memory: &mut GuestMemory) -> (outcome: Result<
    (),
    DispatchError,
>)
    requires
        old(memory).wf(),
        arguments@.len() >= 5,
    ensures
        final(memory).wf(),
        match main_args_outcome(*old(memory), *old(new_mode), arguments@) {
            Err(error) => outcome == Err::<(), DispatchError>(error) && *final(memory) == *old(
                memory,
            ) && *final(new_mode) == *old(new_mode),
            Ok(mode) => {
                &&& outcome is Ok
                &&& *final(new_mode) == mode
                &&& final(memory).pages() == old(memory).pages()
                &&& final(memory).limit() == old(memory).limit()
                &&& forall|a: int| #[trigger]
                    final(memory).holds(a) ==> final(memory).byte(a) == stored_byte(
                        arguments@.subrange(0, 3),
                        words_at(*old(memory), ARGC, 3),
                        a,
                        2,
                        old(memory).byte(a),
                    )
            },
        },
{
    if arguments[3] != 0 {
        return Err(DispatchError::Unsupported);
    }
    let mut mode = *new_mode;
    if arguments[4] != 0 {
        mode = read_word(memory, arguments[4])?;
        if mode > 1 {
            return Err(DispatchError::Unsupported);
        }
    }
    let mut values = [0u32; 3];
    read_words(memory, ARGC, &mut values)?;
    let ghost targets = arguments@.subrange(0, 3);
    let mut index: usize = 0;
    while index < 3
        invariant
            memory.wf(),
            *memory == *old(memory),
            arguments@.len() >= 5,
            targets == arguments@.subrange(0, 3),
            index <= 3,
            *new_mode == *old(new_mode),
            main_args_outcome(*old(memory), *old(new_mode), arguments@) == match cells_from(
                *old(memory),
                targets,
                0,
            ) {
                Err(error) => Err(error),
                Ok(()) => Ok::<u32, DispatchError>(mode),
            },
            cells_from(*memory, targets, 0) == cells_from(*memory, targets, index as int),
        decreases 3 - index,
    {
        check(memory, arguments[index], 4, Access::Write)?;
        index = index + 1;
    }
    proof {
        lemma_cells_writable(*memory, targets, 0);
    }
    let ghost original = *memory;
    let mut index: usize = 0;
    while index < 3
        invariant
            memory.wf(),
            memory.pages() == original.pages(),
            memory.limit() == original.limit(),
            arguments@.len() >= 5,
            targets == arguments@.subrange(0, 3),
            values@ == words_at(original, ARGC, 3),
            index <= 3,
            forall|j: int|
                0 <= j < 3 ==> #[trigger] check_outcome(original, targets[j], 4, Access::Write) is Ok,
            forall|a: int| #[trigger]
                memory.holds(a) ==> memory.byte(a) == stored_byte(
                    targets,
                    values@,
                    a,
                    index - 1,
                    original.byte(a),
                ),
        decreases 3 - index,
    {
        let ghost before = *memory;
        assert(check_outcome(original, targets[index as int], 4, Access::Write) is Ok);
        match write_word(memory, arguments[index], values[index]) {
            Ok(()) => {},
            Err(error) => {
                assert(false);
                return Err(error);
            },
        }
        proof {
            assert forall|a: int| #[trigger] memory.holds(a) implies memory.byte(a) == stored_byte(
                targets,
                values@,
                a,
                index as int,
                original.byte(a),
            ) by {
                assert(before.holds(a));
            }
        }
        index = index + 1;
    }
    *new_mode = mode;
    Ok(())
}

} // verus!
