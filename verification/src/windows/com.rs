//! `CoInitialize` and `CoUninitialize`: a count of how often COM was
//! initialized on the process.
use super::names::same_text;
use super::DispatchError;
use vstd::prelude::*;

verus! {

/// A COM library function.
#[derive(Clone, Copy, Debug, PartialEq, Eq, Structural)]
pub enum Call {
    Initialize,
    Uninitialize,
}

/// The status `CoInitialize` gives for a reserved argument that is not null.
pub const INVALID_ARGUMENT: u32 = 0x8007_0057;

/// The offset in the import page of each exported name.
pub open spec fn export_offset(name: Seq<char>) -> Option<u32> {
    if name == "CoInitialize"@ {
        Some(0x474)
    } else if name == "CoUninitialize"@ {
        Some(0x478)
    } else {
        None
    }
}

impl Call {
    /// The function at `offset` in the import page, if it is one of these.
    pub fn at(offset: u32) -> (call: Option<Self>)
        ensures
            call == (if offset == 0x474 {
                Some(Call::Initialize)
            } else if offset == 0x478 {
                Some(Call::Uninitialize)
            } else {
                None
            }),
    {
        match offset {
            0x474 => Some(Call::Initialize),
            0x478 => Some(Call::Uninitialize),
            _ => None,
        }
    }

    /// The offset in the import page that `name` resolves to.
    pub fn resolve(name: &str) -> (offset: Option<u32>)
        ensures
            offset == export_offset(name@),
    {
        if same_text(name, "CoInitialize") {
            Some(0x474)
        } else if same_text(name, "CoUninitialize") {
            Some(0x478)
        } else {
            None
        }
    }

    /// How many stack arguments the function takes.
    pub fn arguments(self) -> (count: usize)
        ensures
            count == (match self {
                Call::Initialize => 1usize,
                Call::Uninitialize => 0usize,
            }),
    {
        match self {
            Call::Initialize => 1,
            Call::Uninitialize => 0,
        }
    }
}

/// How many times COM is initialized.
pub struct Com {
    pub references: u32,
}

impl Default for Com {
    /// Not initialized.
    fn default() -> (com: Self)
        ensures
            com.references == 0,
    {
        Com { references: 0 }
    }
}

impl Com {
    /// Runs `call` with its stack `arguments`: `CoInitialize` refuses a
    /// reserved argument that is not null and otherwise counts one more
    /// initialization, answering 0 the first time and 1 (already
    /// initialized) after; `CoUninitialize` counts one less, never below
    /// zero, and answers nothing.
    pub fn dispatch(&mut self, call: Call, arguments: &[u32]) -> (outcome: Result<Option<u32>, DispatchError>)
        requires
            call == Call::Initialize ==> arguments@.len() >= 1,
        ensures
            call == Call::Initialize && arguments@[0] != 0 ==> outcome == Ok::<
                Option<u32>,
                DispatchError,
            >(Some(INVALID_ARGUMENT)) && final(self).references == old(self).references,
            call == Call::Initialize && arguments@[0] == 0 && old(self).references == u32::MAX
                ==> outcome == Err::<Option<u32>, DispatchError>(DispatchError::Unsupported)
                && final(self).references == old(self).references,
            call == Call::Initialize && arguments@[0] == 0 && old(self).references < u32::MAX
                ==> outcome == Ok::<Option<u32>, DispatchError>(
                Some(if old(self).references != 0 {
                    1u32
                } else {
                    0u32
                }),
            ) && final(self).references == old(self).references + 1,
            call == Call::Uninitialize ==> outcome == Ok::<Option<u32>, DispatchError>(None)
                && final(self).references == if old(self).references > 0 {
                (old(self).references - 1) as u32
            } else {
                0u32
            },
    {
        match call {
            Call::Initialize => {
                if arguments[0] != 0 {
                    return Ok(Some(INVALID_ARGUMENT));
                }
                let result: u32 = if self.references != 0 {
                    1
                } else {
                    0
                };
                self.references = match self.references.checked_add(1) {
                    Some(count) => count,
                    None => return Err(DispatchError::Unsupported),
                };
                Ok(Some(result))
            },
            Call::Uninitialize => {
                self.references = self.references.saturating_sub(1);
                Ok(None)
            },
        }
    }
}

} // verus!
