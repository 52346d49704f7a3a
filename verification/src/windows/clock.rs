//! The session clock: elapsed time supplied by the host, never by guest work,
//! and the performance-counter and tick-count queries that read it.
use super::guest::{check, check_outcome};
use crate::cpu::{Cpu32, Register32};
use crate::memory::{Access, GuestMemory, MemoryError};
use core::time::Duration;
use vstd::prelude::*;

verus! {

/// Why a new elapsed time was refused.
#[derive(Clone, Copy, Debug, PartialEq, Eq, Structural)]
pub enum ClockError {
    WentBackwards,
    OutOfRange,
}

/// The clock queries, by their offset in the emulated table.
#[derive(Clone, Copy, Debug, PartialEq, Eq, Structural)]
pub enum Call {
    Frequency,
    Counter,
    Milliseconds,
}

impl Call {
    /// The number of stack arguments: one output pointer, none for the tick
    /// count.
    pub fn arguments(self) -> (count: usize)
        ensures
            count == if self == Call::Milliseconds {
                0usize
            } else {
                1usize
            },
    {
        match self {
            Call::Milliseconds => 0,
            _ => 1,
        }
    }

    /// The query at `offset`, if it is one of these.
    pub fn at(offset: u32) -> (call: Option<Call>)
        ensures
            call == (if offset == 0x220 {
                Some(Call::Frequency)
            } else if offset == 0x224 {
                Some(Call::Counter)
            } else if offset == 0x244 {
                Some(Call::Milliseconds)
            } else {
                None
            }),
    {
        match offset {
            0x220 => Some(Call::Frequency),
            0x224 => Some(Call::Counter),
            0x244 => Some(Call::Milliseconds),
            _ => None,
        }
    }
}

/// Elapsed time since a host-chosen session origin, in nanoseconds.
pub struct Clock {
    pub elapsed_nanoseconds: i64,
}

impl Default for Clock {
    /// A clock at zero.
    fn default() -> (clock: Self)
        ensures
            clock.elapsed_nanoseconds == 0,
    {
        Clock { elapsed_nanoseconds: 0 }
    }
}

/// The whole seconds that `Duration::as_secs` gives for `elapsed`.
pub uninterp spec fn duration_seconds(elapsed: Duration) -> u64;

/// The nanoseconds past the whole seconds that `Duration::subsec_nanos`
/// gives for `elapsed`.
pub uninterp spec fn duration_subsecond_nanoseconds(elapsed: Duration) -> u32;

/// The length of `elapsed` in whole nanoseconds: its whole seconds times
/// one billion, plus the nanoseconds past them.
pub open spec fn duration_nanoseconds(elapsed: Duration) -> u128 {
    (duration_seconds(elapsed) * 1_000_000_000 + duration_subsecond_nanoseconds(elapsed)) as u128
}

/// The whole seconds of `elapsed`, by `Duration::as_secs`. Claimed: the
/// result is a function of the duration alone, named `duration_seconds`.
#[verifier::external_body]
fn whole_seconds(elapsed: Duration) -> (seconds: u64)
    ensures
        seconds == duration_seconds(elapsed),
{
    elapsed.as_secs()
}

/// The nanoseconds of `elapsed` past its whole seconds, by
/// `Duration::subsec_nanos`. Claimed: the result is a function of the
/// duration alone, named `duration_subsecond_nanoseconds`, and is less than
/// one billion, as the method's documentation says.
#[verifier::external_body]
fn subsecond_nanoseconds(elapsed: Duration) -> (nanos: u32)
    ensures
        nanos == duration_subsecond_nanoseconds(elapsed),
        nanos < 1_000_000_000,
{
    elapsed.subsec_nanos()
}

/// The length of `elapsed` in whole nanoseconds.
fn nanoseconds(elapsed: Duration) -> (nanos: u128)
    ensures
        nanos == duration_nanoseconds(elapsed),
{
    let seconds: u64 = whole_seconds(elapsed);
    let fraction: u32 = subsecond_nanoseconds(elapsed);
    assert(seconds * 1_000_000_000 + fraction < 0x1_0000_0000_0000_0000_0000_0000_0000) by (nonlinear_arith)
        requires
            fraction < 1_000_000_000,
    ;
    seconds as u128 * 1_000_000_000 + fraction as u128
}

/// What setting a clock that read `before` nanoseconds to a sample of
/// `nanos` nanoseconds answers and leaves (`after`): a sample above
/// `i64::MAX` is out of range and one below the clock went backwards, both
/// refused with the clock kept; any other sample, equal ones included,
/// becomes the clock's reading.
pub open spec fn elapsed_set(before: i64, after: i64, nanos: u128, outcome: Result<(), ClockError>) -> bool {
    if nanos > i64::MAX {
        outcome == Err::<(), ClockError>(ClockError::OutOfRange) && after == before
    } else if nanos < before {
        outcome == Err::<(), ClockError>(ClockError::WentBackwards) && after == before
    } else {
        outcome == Ok::<(), ClockError>(()) && after == nanos
    }
}

/// The eight little-endian bytes of `value`.
pub open spec fn quad_bytes(value: i64) -> Seq<u8> {
    let unsigned: int = if value < 0 {
        value + 0x1_0000_0000_0000_0000
    } else {
        value as int
    };
    Seq::new(8, |i: int| ((unsigned / (vstd::arithmetic::power2::pow2((8 * i) as nat) as int)) % 256) as u8)
}

impl Clock {
    /// Sets the elapsed time to `elapsed`; see [`Self::set_elapsed_nanoseconds`].
    pub fn set_elapsed_time(&mut self, elapsed: Duration) -> (outcome: Result<(), ClockError>)
        requires
            old(self).elapsed_nanoseconds >= 0,
        ensures
            final(self).elapsed_nanoseconds >= 0,
            elapsed_set(
                old(self).elapsed_nanoseconds,
                final(self).elapsed_nanoseconds,
                duration_nanoseconds(elapsed),
                outcome,
            ),
    {
        self.set_elapsed_nanoseconds(nanoseconds(elapsed))
    }

    /// Sets the elapsed time to `nanos` nanoseconds: equal samples are
    /// accepted, a decreasing sample or one above `i64::MAX` is refused and
    /// the clock kept.
    pub fn set_elapsed_nanoseconds(&mut self, nanos: u128) -> (outcome: Result<(), ClockError>)
        requires
            old(self).elapsed_nanoseconds >= 0,
        ensures
            final(self).elapsed_nanoseconds >= 0,
            nanos > i64::MAX ==> outcome == Err::<(), ClockError>(ClockError::OutOfRange)
                && final(self).elapsed_nanoseconds == old(self).elapsed_nanoseconds,
            nanos <= i64::MAX && nanos < old(self).elapsed_nanoseconds ==> outcome == Err::<
                (),
                ClockError,
            >(ClockError::WentBackwards) && final(self).elapsed_nanoseconds == old(
                self,
            ).elapsed_nanoseconds,
            nanos <= i64::MAX && nanos >= old(self).elapsed_nanoseconds ==> outcome is Ok
                && final(self).elapsed_nanoseconds == nanos,
            elapsed_set(old(self).elapsed_nanoseconds, final(self).elapsed_nanoseconds, nanos, outcome),
    {
        if nanos > i64::MAX as u128 {
            return Err(ClockError::OutOfRange);
        }
        let nanos = nanos as i64;
        if nanos < self.elapsed_nanoseconds {
            return Err(ClockError::WentBackwards);
        }
        self.elapsed_nanoseconds = nanos;
        Ok(())
    }

    /// The tick count: whole milliseconds, modulo 2^32.
    pub fn elapsed_milliseconds(&self) -> (millis: u32)
        requires
            self.elapsed_nanoseconds >= 0,
        ensures
            millis == (self.elapsed_nanoseconds / 1_000_000) % 0x1_0000_0000,
    {
        ((self.elapsed_nanoseconds / 1_000_000) as u64 % 0x1_0000_0000) as u32
    }

    /// Answers `call`: the tick count goes to `eax`; the frequency (10^9 per
    /// second) or the counter is stored as a quadword at `output`, and `eax`
    /// becomes 1.
    pub fn query(&self, call: Call, output: u32, cpu: &mut Cpu32, memory: &mut GuestMemory) -> (outcome:
        Result<(), MemoryError>)
        requires
            self.elapsed_nanoseconds >= 0,
            old(memory).wf(),
        ensures
            final(memory).wf(),
            call == Call::Milliseconds ==> outcome is Ok && *final(memory) == *old(memory)
                && final(cpu).register_set(
                *old(cpu),
                Register32::Eax,
                ((self.elapsed_nanoseconds / 1_000_000) % 0x1_0000_0000) as u32,
            ),
            call != Call::Milliseconds ==> match old(memory).access(output as u64, 8, Access::Write) {
                Err(error) => outcome == Err::<(), MemoryError>(error) && *final(memory) == *old(
                    memory,
                ) && *final(cpu) == *old(cpu),
                Ok(()) => {
                    &&& outcome is Ok
                    &&& final(memory).wrote(
                        *old(memory),
                        output as int,
                        quad_bytes(
                            if call == Call::Frequency {
                                1_000_000_000
                            } else {
                                self.elapsed_nanoseconds
                            },
                        ),
                    )
                    &&& final(cpu).register_set(*old(cpu), Register32::Eax, 1)
                },
            },
    {
        let value: i64 = match call {
            Call::Frequency => 1_000_000_000,
            Call::Counter => self.elapsed_nanoseconds,
            Call::Milliseconds => {
                cpu.set_register(Register32::Eax, self.elapsed_milliseconds());
                return Ok(());
            },
        };
        match check(memory, output, 8, Access::Write) {
            Err(super::DispatchError::Memory(error)) => return Err(error),
            Err(_) => return Err(MemoryError::AddressOverflow),
            Ok(()) => {},
        }
        let bytes = quad_of(value);
        memory.write(output as u64, bytes.as_slice())?;
        cpu.set_register(Register32::Eax, 1);
        Ok(())
    }
}

/// The eight little-endian bytes of `value`.
fn quad_of(value: i64) -> (bytes: Vec<u8>)
    requires
        value >= 0,
    ensures
        bytes@ == quad_bytes(value),
{
    let mut bytes: Vec<u8> = Vec::new();
    let mut rest = value as u64;
    let mut i: usize = 0;
    proof {
        vstd::arithmetic::power2::lemma2_to64();
        assert(vstd::arithmetic::power2::pow2((8 * i) as nat) == 1);
    }
    while i < 8
        invariant
            i <= 8,
            bytes@.len() == i,
            value >= 0,
            rest == value as int / (vstd::arithmetic::power2::pow2((8 * i) as nat) as int),
            forall|j: int| 0 <= j < i ==> #[trigger] bytes@[j] == quad_bytes(value)[j],
        decreases 8 - i,
    {
        bytes.push((rest % 256) as u8);
        proof {
            vstd::arithmetic::power2::lemma_pow2_adds((8 * i) as nat, 8);
            vstd::arithmetic::power2::lemma2_to64();
            vstd::arithmetic::power2::lemma_pow2_pos((8 * i) as nat);
            vstd::arithmetic::div_mod::lemma_div_denominator(
                value as int,
                vstd::arithmetic::power2::pow2((8 * i) as nat) as int,
                256,
            );
        }
        rest = rest / 256;
        i = i + 1;
    }
    assert(bytes@ =~= quad_bytes(value));
    bytes
}

} // verus!
