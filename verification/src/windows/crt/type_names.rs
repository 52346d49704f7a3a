//! Readable names of run-time type descriptors: `.?AVName@Space@@` becomes
//! `class Space::Name`.
use super::super::DispatchError;
use super::strings::{bytes_at, length_from};
use super::scanning::read_limited;
use crate::memory::GuestMemory;
use vstd::prelude::*;

verus! {

/// The most name parts a decorated name may have.
pub const MAX_PARTS: usize = 32;

/// Whether `byte` is an ASCII letter.
pub open spec fn is_letter(byte: u8) -> bool {
    (65 <= byte <= 90) || (97 <= byte <= 122)
}

/// Whether `byte` may continue an identifier: a letter, a digit or `_`.
pub open spec fn continues(byte: u8) -> bool {
    is_letter(byte) || (48 <= byte <= 57) || byte == 95
}

/// Whether `name` is an identifier: a letter or `_` followed by letters,
/// digits and `_`.
pub open spec fn is_identifier(name: Seq<u8>) -> bool {
    &&& name.len() > 0
    &&& (is_letter(name[0]) || name[0] == 95)
    &&& forall|i: int| 0 <= i < name.len() ==> #[trigger] continues(name[i])
}

/// `text` cut at every `@`: one more part than there are `@`s.
pub open spec fn parts(text: Seq<u8>) -> Seq<Seq<u8>>
    decreases text.len(),
{
    if text.len() == 0 {
        seq![Seq::<u8>::empty()]
    } else {
        let before = parts(text.drop_last());
        if text.last() == 64 {
            before.push(Seq::<u8>::empty())
        } else {
            before.update(before.len() - 1, before.last().push(text.last()))
        }
    }
}

/// The parts in reverse order, joined by `::`.
pub open spec fn joined_reversed(names: Seq<Seq<u8>>) -> Seq<u8>
    decreases names.len(),
{
    if names.len() == 0 {
        Seq::<u8>::empty()
    } else if names.len() == 1 {
        names[0]
    } else {
        joined_reversed(names.skip(1)) + seq![58u8, 58u8] + names[0]
    }
}

/// The word for a decorated type kind, and where the name begins: `V` class,
/// `U` struct, `T` union, `W4` enum.
pub open spec fn kind_of(raw: Seq<u8>) -> Option<(Seq<u8>, int)> {
    if raw.len() > 3 && raw[3] == 86 {
        Some((seq![99u8, 108, 97, 115, 115, 32], 4))
    } else if raw.len() > 3 && raw[3] == 85 {
        Some((seq![115u8, 116, 114, 117, 99, 116, 32], 4))
    } else if raw.len() > 3 && raw[3] == 84 {
        Some((seq![117u8, 110, 105, 111, 110, 32], 4))
    } else if raw.len() > 4 && raw[3] == 87 && raw[4] == 52 {
        Some((seq![101u8, 110, 117, 109, 32], 5))
    } else {
        None
    }
}

/// The readable name of a decorated type name, terminated: `.?A`, the kind,
/// the parts innermost first, then `@@`; at most `MAX_PARTS` parts, each an
/// identifier.
pub open spec fn decoded(raw: Seq<u8>) -> Option<Seq<u8>> {
    if !(raw.len() >= 3 && raw[0] == 46 && raw[1] == 63 && raw[2] == 65) {
        None
    } else {
        match kind_of(raw) {
            None => None,
            Some((word, start)) => if raw.len() < start + 2 || raw[raw.len() - 2] != 64
                || raw[raw.len() - 1] != 64 {
                None
            } else {
                let names = parts(raw.subrange(start, raw.len() - 2));
                if names.len() > MAX_PARTS || exists|i: int|
                    0 <= i < names.len() && !is_identifier(#[trigger] names[i]) {
                    None
                } else {
                    Some(word + joined_reversed(names) + seq![0u8])
                }
            },
        }
    }
}

/// There is always at least one part.
proof fn lemma_parts_nonempty(text: Seq<u8>)
    ensures
        parts(text).len() >= 1,
    decreases text.len(),
{
    if text.len() > 0 {
        lemma_parts_nonempty(text.drop_last());
    }
}

/// Whether `name` is an identifier.
pub fn identifier(name: &[u8]) -> (valid: bool)
    ensures
        valid == is_identifier(name@),
{
    if name.len() == 0 {
        return false;
    }
    let first = name[0];
    if !((65 <= first && first <= 90) || (97 <= first && first <= 122) || first == 95) {
        return false;
    }
    let mut i: usize = 0;
    while i < name.len()
        invariant
            i <= name@.len(),
            forall|j: int| 0 <= j < i ==> #[trigger] continues(name@[j]),
        decreases name@.len() - i,
    {
        let byte = name[i];
        if !((65 <= byte && byte <= 90) || (97 <= byte && byte <= 122) || (48 <= byte && byte
            <= 57) || byte == 95) {
            assert(!continues(name@[i as int]));
            return false;
        }
        i = i + 1;
    }
    true
}

/// The views of a list of byte vectors.
pub open spec fn views(names: Seq<Vec<u8>>) -> Seq<Seq<u8>> {
    Seq::new(names.len(), |i: int| names[i]@)
}

/// Cuts `raw[start..end]` at every `@`.
fn split_parts(raw: &[u8], start: usize, end: usize) -> (names: Vec<Vec<u8>>)
    requires
        start <= end <= raw@.len(),
    ensures
        views(names@) == parts(raw@.subrange(start as int, end as int)),
{
    let mut names: Vec<Vec<u8>> = Vec::new();
    let mut current: Vec<u8> = Vec::new();
    let mut i = start;
    while i < end
        invariant
            start <= i <= end <= raw@.len(),
            views(names@).push(current@) == parts(raw@.subrange(start as int, i as int)),
        decreases end - i,
    {
        let ghost text = raw@.subrange(start as int, i as int + 1);
        assert(text.drop_last() =~= raw@.subrange(start as int, i as int));
        proof {
            lemma_parts_nonempty(text.drop_last());
        }
        if raw[i] == 64 {
            let finished = current;
            current = Vec::new();
            names.push(finished);
            assert(views(names@).push(current@) =~= parts(text));
        } else {
            current.push(raw[i]);
            assert(views(names@).push(current@) =~= parts(text));
        }
        i = i + 1;
    }
    names.push(current);
    assert(views(names@) =~= parts(raw@.subrange(start as int, end as int)));
    names
}

/// Appends `more` to `output`.
fn extend(output: &mut Vec<u8>, more: &Vec<u8>)
    ensures
        final(output)@ == old(output)@ + more@,
{
    let mut i: usize = 0;
    while i < more.len()
        invariant
            i <= more@.len(),
            output@ == old(output)@ + more@.take(i as int),
        decreases more@.len() - i,
    {
        output.push(more[i]);
        assert(more@.take(i as int + 1) =~= more@.take(i as int).push(more@[i as int]));
        i = i + 1;
    }
    assert(more@.take(more@.len() as int) =~= more@);
}

/// The readable, terminated name of a decorated type name, if it is one.
pub fn decode(raw: &[u8]) -> (name: Option<Vec<u8>>)
    ensures
        match decoded(raw@) {
            None => name is None,
            Some(text) => name matches Some(found) && found@ == text,
        },
{
    if !(raw.len() >= 3 && raw[0] == 46 && raw[1] == 63 && raw[2] == 65) {
        return None;
    }
    let (mut output, start): (Vec<u8>, usize) = if raw.len() > 3 && raw[3] == 86 {
        (vec![99u8, 108, 97, 115, 115, 32], 4)
    } else if raw.len() > 3 && raw[3] == 85 {
        (vec![115u8, 116, 114, 117, 99, 116, 32], 4)
    } else if raw.len() > 3 && raw[3] == 84 {
        (vec![117u8, 110, 105, 111, 110, 32], 4)
    } else if raw.len() > 4 && raw[3] == 87 && raw[4] == 52 {
        (vec![101u8, 110, 117, 109, 32], 5)
    } else {
        return None;
    };
    assert(kind_of(raw@) == Some((output@, start as int)));
    let ghost word0 = output@;
    let length = raw.len();
    if length < start + 2 || raw[length - 2] != 64 || raw[length - 1] != 64 {
        return None;
    }
    let names = split_parts(raw, start, length - 2);
    let ghost all = views(names@);
    if names.len() > MAX_PARTS {
        return None;
    }
    let mut k: usize = 0;
    while k < names.len()
        invariant
            k <= names@.len(),
            all == views(names@),
            start + 2 <= length == raw@.len(),
            raw@.len() >= 3 && raw@[0] == 46 && raw@[1] == 63 && raw@[2] == 65,
            kind_of(raw@) == Some((word0, start as int)),
            raw@[length - 2] == 64 && raw@[length - 1] == 64,
            names@.len() <= MAX_PARTS,
            all == parts(raw@.subrange(start as int, length - 2)),
            forall|j: int| 0 <= j < k ==> is_identifier(#[trigger] all[j]),
        decreases names@.len() - k,
    {
        if !identifier(names[k].as_slice()) {
            assert(!is_identifier(all[k as int]));
            assert(all == parts(raw@.subrange(start as int, length - 2)));
            assert(!is_identifier(parts(raw@.subrange(start as int, length - 2))[k as int]));
            assert(raw@.len() >= 3 && raw@[0] == 46 && raw@[1] == 63 && raw@[2] == 65);
            assert(kind_of(raw@) == Some((word0, start as int)));
            assert(decoded(raw@) is None);
            return None;
        }
        k = k + 1;
    }
    let count = names.len();
    let ghost word = output@;
    let mut index: usize = 0;
    while index < count
        invariant
            count == names@.len(),
            count >= 1 || count == 0,
            index <= count,
            all == views(names@),
            output@ == word + joined_reversed(all.subrange(count - index, count as int)),
        decreases count - index,
    {
        let ghost before = all.subrange(count - index, count as int);
        let ghost after = all.subrange(count - index - 1, count as int);
        assert(after.skip(1) =~= before);
        assert(after[0] == all[count - index - 1]);
        if index != 0 {
            output.push(58);
            output.push(58);
        }
        extend(&mut output, &names[count - 1 - index]);
        proof {
            if index == 0 {
                assert(after.len() == 1);
                assert(before =~= Seq::<Seq<u8>>::empty());
            }
            assert(output@ =~= word + joined_reversed(after));
        }
        index = index + 1;
    }
    output.push(0);
    assert(all.subrange(0, count as int) =~= all);
    Some(output)
}

/// The decorated name at `source`, without its terminator; a name that does
/// not end within 1024 bytes is refused.
pub fn read_name(memory: &GuestMemory, source: u32) -> (name: Result<Vec<u8>, DispatchError>)
    requires
        memory.wf(),
    ensures
        match length_from(*memory, source, 0, 1024, Err(DispatchError::Unsupported)) {
            Err(error) => name == Err::<Vec<u8>, DispatchError>(error),
            Ok(length) => name matches Ok(found) && found@ == bytes_at(*memory, source, length as int),
        },
{
    read_limited(memory, source, 1024)
}

} // verus!
