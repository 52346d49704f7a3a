//! Texture-stage colour state: the operation and its two arguments, and the
//! texture coordinate set of each of the eight stages.
use vstd::prelude::*;

verus! {

/// The colour state of one texture stage.
#[derive(Clone, Copy, Debug, PartialEq, Eq, Structural)]
pub struct Stage {
    /// The colour operation: 1 disable, 2 first argument, 3 second argument,
    /// 4 modulate, 5 modulate twice.
    pub operation: u32,
    /// The first argument: 0 diffuse, 1 current, 2 texture.
    pub argument1: u32,
    /// The second argument, as the first.
    pub argument2: u32,
    /// The texture coordinate set.
    pub coordinate: u32,
}

/// The state kinds that a stage holds: colour operation (1), first (2) and
/// second (3) argument, and texture coordinate index (11).
pub open spec fn stage_value(stage: Stage, kind: u32) -> Option<u32> {
    if kind == 1 {
        Some(stage.operation)
    } else if kind == 2 {
        Some(stage.argument1)
    } else if kind == 3 {
        Some(stage.argument2)
    } else if kind == 11 {
        Some(stage.coordinate)
    } else {
        None
    }
}

/// Whether `value` is accepted for `kind` at stage `index`: operations 1 to
/// 5 (only "disable" past the second stage), arguments up to 2, coordinate sets
/// up to 7.
pub open spec fn accepted(index: usize, kind: u32, value: u32) -> bool {
    if kind == 1 {
        1 <= value <= 5 && (index < 2 || value == 1)
    } else if kind == 2 || kind == 3 {
        value <= 2
    } else if kind == 11 {
        value <= 7
    } else {
        false
    }
}

/// The stage after setting `kind` to `value`.
pub open spec fn with_value(stage: Stage, kind: u32, value: u32) -> Stage {
    if kind == 1 {
        Stage { operation: value, ..stage }
    } else if kind == 2 {
        Stage { argument1: value, ..stage }
    } else if kind == 3 {
        Stage { argument2: value, ..stage }
    } else {
        Stage { coordinate: value, ..stage }
    }
}

impl Stage {
    /// The device defaults: the first stage modulates texture and current
    /// colour, the others are disabled; stage `i` uses coordinate set `i`.
    pub fn defaults() -> (stages: [Stage; 8])
        ensures
            forall|i: int|
                0 <= i < 8 ==> #[trigger] stages@[i] == (Stage {
                    operation: if i == 0 {
                        4
                    } else {
                        1
                    },
                    argument1: 2,
                    argument2: 1,
                    coordinate: i as u32,
                }),
    {
        let mut stages = [Stage { operation: 1, argument1: 2, argument2: 1, coordinate: 0 }; 8];
        let mut index: usize = 0;
        while index < 8
            invariant
                index <= 8,
                stages@.len() == 8,
                forall|i: int|
                    0 <= i < index ==> #[trigger] stages@[i] == (Stage {
                        operation: if i == 0 {
                            4
                        } else {
                            1
                        },
                        argument1: 2,
                        argument2: 1,
                        coordinate: i as u32,
                    }),
            decreases 8 - index,
        {
            stages[index] = Stage {
                operation: if index == 0 {
                    4
                } else {
                    1
                },
                argument1: 2,
                argument2: 1,
                coordinate: index as u32,
            };
            index = index + 1;
        }
        stages
    }

    /// Sets `kind` of stage `index` to `value` where both are accepted, and
    /// tells whether they were; a refused setting changes nothing.
    pub fn set(&mut self, index: usize, kind: u32, value: u32) -> (done: bool)
        ensures
            done == accepted(index, kind, value),
            done ==> *final(self) == with_value(*old(self), kind, value),
            !done ==> *final(self) == *old(self),
    {
        if kind == 1 && 1 <= value && value <= 5 && (index < 2 || value == 1) {
            self.operation = value;
        } else if kind == 2 && value <= 2 {
            self.argument1 = value;
        } else if kind == 3 && value <= 2 {
            self.argument2 = value;
        } else if kind == 11 && value <= 7 {
            self.coordinate = value;
        } else {
            return false;
        }
        true
    }

    /// The value of `kind`, if the stage holds that kind.
    pub fn get(self, kind: u32) -> (value: Option<u32>)
        ensures
            value == stage_value(self, kind),
    {
        if kind == 1 {
            Some(self.operation)
        } else if kind == 2 {
            Some(self.argument1)
        } else if kind == 3 {
            Some(self.argument2)
        } else if kind == 11 {
            Some(self.coordinate)
        } else {
            None
        }
    }

    /// Whether the stage reads its texture: an argument that the operation
    /// uses is the texture.
    pub fn uses_texture(self) -> (uses: bool)
        ensures
            uses == ((self.operation != 3 && self.argument1 == 2) || (self.operation != 2
                && self.argument2 == 2)),
    {
        (self.operation != 3 && self.argument1 == 2) || (self.operation != 2 && self.argument2 == 2)
    }
}

/// What a setting stores is what a reading gives back, and a refused setting
/// leaves every reading as it was.
pub proof fn law_set_then_get(stage: Stage, index: usize, kind: u32, value: u32, other: u32)
    ensures
        accepted(index, kind, value) ==> stage_value(with_value(stage, kind, value), kind) == Some(
            value,
        ),
        accepted(index, kind, value) && other != kind ==> stage_value(
            with_value(stage, kind, value),
            other,
        ) == stage_value(stage, other),
{
}

} // verus!
