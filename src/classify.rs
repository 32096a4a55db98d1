use vstd::prelude::*;
use crate::err::TargetState;

verus! {

/// Length in bytes of the executable that the patch was made for.
pub const EXE_SIZE: u64 = 6854144;

/// Offset of the byte that selects the sprite encoder's pixel format.
pub const EXE_PATCH_OFFSET: u64 = 0x3C1F7;

/// The stock value at the patch offset (RGBA4444).
pub const STOCK_VALUE: u8 = 0x06;

/// The value that the patch writes at the offset (RGBA8888).
pub const PATCHED_VALUE: u8 = 0x00;

/// What a look at a file's path found.
pub enum FileProbe {
    /// Nothing exists at the path.
    Absent,
    /// Something exists at the path, but it could not be read.
    Unreadable,
    /// The file's contents.
    Found(Vec<u8>),
}

/// The state of an executable with the given contents.
pub open spec fn exe_state_of(c: Seq<u8>) -> TargetState {
    if c.len() != EXE_SIZE {
        TargetState::Invalid
    } else if c[EXE_PATCH_OFFSET as int] == PATCHED_VALUE {
        TargetState::Patched
    } else if c[EXE_PATCH_OFFSET as int] == STOCK_VALUE {
        TargetState::Present
    } else {
        TargetState::Invalid
    }
}

/// The state of a texture atlas of the given length, against the stock
/// atlas's length and the replacement's.
pub open spec fn gamesheet_state_of(len: int, stock_len: int, patched_len: int) -> TargetState {
    if len == stock_len {
        TargetState::Present
    } else if len == patched_len {
        TargetState::Patched
    } else {
        TargetState::Invalid
    }
}

/// The state of the executable as the probe found it.
pub open spec fn exe_probe_state(p: FileProbe) -> TargetState {
    match p {
        FileProbe::Absent => TargetState::Missing,
        FileProbe::Unreadable => TargetState::Invalid,
        FileProbe::Found(c) => exe_state_of(c@),
    }
}

/// The state of the texture atlas as the probe found it.
pub open spec fn gamesheet_probe_state(p: FileProbe, stock_len: int, patched_len: int) -> TargetState {
    match p {
        FileProbe::Absent => TargetState::Missing,
        FileProbe::Unreadable => TargetState::Invalid,
        FileProbe::Found(c) => gamesheet_state_of(c@.len() as int, stock_len, patched_len),
    }
}

/// Classifies executable contents: wrong length or an unknown byte at the
/// patch offset make it invalid; the offset's byte tells stock from patched.
pub fn classify_exe_contents(contents: &[u8]) -> (r: TargetState)
    ensures
        r == exe_state_of(contents@),
{
    if contents.len() != EXE_SIZE as usize {
        TargetState::Invalid
    } else {
        let b = contents[EXE_PATCH_OFFSET as usize];
        if b == PATCHED_VALUE {
            TargetState::Patched
        } else if b == STOCK_VALUE {
            TargetState::Present
        } else {
            TargetState::Invalid
        }
    }
}

/// Classifies a texture atlas by its length alone.
pub fn classify_gamesheet_len(len: u64, stock_len: u64, patched_len: u64) -> (r: TargetState)
    ensures
        r == gamesheet_state_of(len as int, stock_len as int, patched_len as int),
{
    if len == stock_len {
        TargetState::Present
    } else if len == patched_len {
        TargetState::Patched
    } else {
        TargetState::Invalid
    }
}

/// Classifies the executable as found at its path.
pub fn classify_exe(probe: &FileProbe) -> (r: TargetState)
    ensures
        r == exe_probe_state(*probe),
{
    match probe {
        FileProbe::Absent => TargetState::Missing,
        FileProbe::Unreadable => TargetState::Invalid,
        FileProbe::Found(c) => classify_exe_contents(c.as_slice()),
    }
}

/// Classifies the texture atlas as found at its path.
pub fn classify_gamesheet(probe: &FileProbe, stock_len: u64, patched_len: u64) -> (r: TargetState)
    ensures
        r == gamesheet_probe_state(*probe, stock_len as int, patched_len as int),
{
    match probe {
        FileProbe::Absent => TargetState::Missing,
        FileProbe::Unreadable => TargetState::Invalid,
        FileProbe::Found(c) => classify_gamesheet_len(c.len() as u64, stock_len, patched_len),
    }
}

/// Two executables of the same length that agree at the patch offset are
/// classified alike: the classifier looks at nothing else.
pub proof fn lemma_exe_state_determined_by_layout(a: Seq<u8>, b: Seq<u8>)
    requires
        a.len() == b.len(),
        a.len() == EXE_SIZE ==> a[EXE_PATCH_OFFSET as int] == b[EXE_PATCH_OFFSET as int],
    ensures
        exe_state_of(a) == exe_state_of(b),
{
}

/// Two texture atlases of the same length are classified alike.
pub proof fn lemma_gamesheet_state_determined_by_len(a: Seq<u8>, b: Seq<u8>, stock_len: int, patched_len: int)
    requires
        a.len() == b.len(),
    ensures
        gamesheet_state_of(a.len() as int, stock_len, patched_len)
            == gamesheet_state_of(b.len() as int, stock_len, patched_len),
{
}

} // verus!
