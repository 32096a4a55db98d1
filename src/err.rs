use vstd::prelude::*;

verus! {

/// Why a patch operation refused to run.
#[derive(Clone, Copy, Debug, PartialEq, Eq, Structural)]
pub enum PatchErrorKind {
    /// The executable does not have the expected length; holds the length found.
    WrongSize(u64),
    /// The byte at the patch offset is neither the stock nor the patched value;
    /// holds the byte found.
    UnexpectedValue(u8),
    /// Reading or writing the file failed.
    Io,
}

/// The error of a patch operation: a message for the user and its cause.
pub struct PatchError {
    pub message: String,
    pub kind: PatchErrorKind,
}

impl PatchError {
    /// An error with the given message, caused by a failed read or write.
    pub fn new(msg: String) -> (r: PatchError)
        ensures
            r.message@ == msg@,
            r.kind == PatchErrorKind::Io,
    {
        PatchError { message: msg, kind: PatchErrorKind::Io }
    }

    /// An error with the given message and cause.
    pub fn with_kind(msg: String, kind: PatchErrorKind) -> (r: PatchError)
        ensures
            r.message@ == msg@,
            r.kind == kind,
    {
        PatchError { message: msg, kind }
    }

    /// The message, as the error would display itself.
    pub fn description(&self) -> (r: &str)
        ensures
            r@ == self.message@,
    {
        self.message.as_str()
    }
}

/// The on-disk condition of a tracked file, relative to the layout expected of it.
#[derive(Clone, Copy, Debug, PartialEq, Eq, Structural)]
pub enum TargetState {
    /// The stock file, ready to be patched.
    Present,
    /// The file already carries the patch.
    Patched,
    /// No file at the expected path.
    Missing,
    /// A file is there, but it is neither the stock nor the patched one.
    Invalid,
}

} // verus!
