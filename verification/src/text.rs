use vstd::prelude::*;

verus! {

/// Whether `text` holds a NUL character.
pub fn has_nul(text: &str) -> (found: bool)
    ensures
        found == text@.contains('\0'),
{
    let mut found = false;
    for c in it: text.chars()
        invariant
            it.seq() == text@,
            found == exists|i: int| 0 <= i < it.index() && text@[i] == '\0',
    {
        if c == '\0' {
            found = true;
        }
    }
    found
}

} // verus!
