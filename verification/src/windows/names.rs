//! Comparing the names that programs import by.
use vstd::prelude::*;
use vstd::utf8::encode_utf8_decode_utf8;
use vstd::string::StringSliceAdditionalSpecFns;

verus! {

/// Whether `name` is `expected`, compared byte by byte.
pub fn same_text(name: &str, expected: &str) -> (same: bool)
    ensures
        same == (name@ == expected@),
{
    let left = name.as_bytes();
    let right = expected.as_bytes();
    proof {
        encode_utf8_decode_utf8(name@);
        encode_utf8_decode_utf8(expected@);
    }
    if left.len() != right.len() {
        return false;
    }
    let mut index: usize = 0;
    while index < left.len()
        invariant
            left@ == name.spec_bytes(),
            right@ == expected.spec_bytes(),
            vstd::utf8::decode_utf8(name.spec_bytes()) == name@,
            vstd::utf8::decode_utf8(expected.spec_bytes()) == expected@,
            left@.len() == right@.len(),
            index <= left@.len(),
            forall|j: int| 0 <= j < index ==> left@[j] == right@[j],
        decreases left@.len() - index,
    {
        if left[index] != right[index] {
            assert(left@[index as int] != right@[index as int]);
            return false;
        }
        index = index + 1;
    }
    assert(left@ =~= right@);
    true
}

} // verus!
