use vstd::prelude::*;

verus! {

/// Which of the two settings requests failed.
#[derive(Clone, Copy, Debug, PartialEq, Eq, Structural)]
pub enum Context {
    /// The request that reads the current wallpaper.
    Read,
    /// The request that writes a new wallpaper.
    Write,
}

impl Context {
    /// The tag under which the failing request is reported.
    pub fn as_str(&self) -> (r: &'static str)
        ensures
            *self == Context::Read ==> r@ == "get"@,
            *self == Context::Write ==> r@ == "set"@,
    {
        match self {
            Context::Read => "get",
            Context::Write => "set",
        }
    }
}

/// Why a wallpaper operation did not succeed.
#[derive(Clone, Copy, Debug, PartialEq, Eq, Structural)]
pub enum WallpaperError {
    /// The path cannot be handed to the settings call: it holds a null byte.
    InvalidInput,
    /// The settings call reported failure; `code` is the error code that the
    /// operating system recorded for it.
    OsFailure { code: u32, context: Context },
    /// The settings call succeeded but its answer is not valid text.
    DecodeError,
}

} // verus!
