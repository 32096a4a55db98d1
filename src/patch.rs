use vstd::prelude::*;
use crate::classify::{
    classify_exe_contents, exe_state_of, EXE_PATCH_OFFSET, EXE_SIZE, PATCHED_VALUE,
};
use crate::err::{PatchError, PatchErrorKind, TargetState};

verus! {

/// The executable's contents after the patch: the byte at the offset is
/// rewritten only on a stock executable.
pub open spec fn exe_patched(c: Seq<u8>) -> Seq<u8> {
    if exe_state_of(c) == TargetState::Present {
        c.update(EXE_PATCH_OFFSET as int, PATCHED_VALUE)
    } else {
        c
    }
}

/// Why the executable patch refuses contents that are neither stock nor patched.
pub open spec fn exe_refusal(c: Seq<u8>) -> PatchErrorKind {
    if c.len() != EXE_SIZE {
        PatchErrorKind::WrongSize(c.len() as u64)
    } else {
        PatchErrorKind::UnexpectedValue(c[EXE_PATCH_OFFSET as int])
    }
}

/// The texture atlas's contents after the patch: the replacement, whatever was there.
pub open spec fn gamesheet_patched(c: Seq<u8>, replacement: Seq<u8>) -> Seq<u8> {
    replacement
}

/// Patches executable contents in place.
///
/// A stock executable gets the patched value at the offset, and `Ok(true)`.
/// An already patched one is left as it is, with `Ok(false)`. Anything else
/// is refused and left untouched: the error says whether the length or the
/// byte at the offset was wrong.
pub fn patch_exe(contents: &mut Vec<u8>) -> (r: Result<bool, PatchError>)
    ensures
        final(contents)@ == exe_patched(old(contents)@),
        r is Ok <==> exe_state_of(old(contents)@) != TargetState::Invalid,
        r matches Ok(b) ==> b == (exe_state_of(old(contents)@) == TargetState::Present),
        r matches Err(e) ==> e.kind == exe_refusal(old(contents)@),
        old(contents)@.len() != EXE_SIZE ==> final(contents)@ == old(contents)@ && r is Err,
{
    let state = classify_exe_contents(contents.as_slice());
    match state {
        TargetState::Present => {
            contents.set(EXE_PATCH_OFFSET as usize, PATCHED_VALUE);
            Ok(true)
        },
        TargetState::Patched => Ok(false),
        _ => {
            if contents.len() != EXE_SIZE as usize {
                let found = contents.len() as u64;
                Err(PatchError::with_kind(String::from_str("invalid gd executable"), PatchErrorKind::WrongSize(found)))
            } else {
                let found = contents[EXE_PATCH_OFFSET as usize];
                Err(PatchError::with_kind(String::from_str("invalid value found at the patch offset"), PatchErrorKind::UnexpectedValue(found)))
            }
        },
    }
}

/// Replaces the texture atlas's contents with the replacement, without
/// looking at what was there.
pub fn patch_resources(contents: &mut Vec<u8>, replacement: &[u8])
    ensures
        final(contents)@ == gamesheet_patched(old(contents)@, replacement@),
{
    contents.clear();
    let mut i: usize = 0;
    while i < replacement.len()
        invariant
            i <= replacement@.len(),
            contents@ == replacement@.subrange(0, i as int),
        decreases replacement@.len() - i,
    {
        contents.push(replacement[i]);
        i = i + 1;
    }
    assert(contents@ == replacement@);
}

/// Patching the executable twice leaves it as patching it once does, and the
/// second patch reports that there was nothing to do.
pub proof fn lemma_exe_patch_idempotent(c: Seq<u8>)
    ensures
        exe_patched(exe_patched(c)) == exe_patched(c),
        exe_state_of(exe_patched(c)) != TargetState::Present,
        exe_state_of(c) != TargetState::Invalid ==> exe_state_of(exe_patched(c)) == TargetState::Patched,
{
}

/// Patching the texture atlas twice leaves it as patching it once does.
pub proof fn lemma_resource_patch_idempotent(c: Seq<u8>, replacement: Seq<u8>)
    ensures
        gamesheet_patched(gamesheet_patched(c, replacement), replacement)
            == gamesheet_patched(c, replacement),
{
}

/// An executable of the wrong length is refused for its length and left as it was.
pub proof fn lemma_wrong_size_untouched(c: Seq<u8>)
    requires
        c.len() != EXE_SIZE,
    ensures
        exe_state_of(c) == TargetState::Invalid,
        exe_patched(c) == c,
        exe_refusal(c) == PatchErrorKind::WrongSize(c.len() as u64),
{
}

} // verus!
