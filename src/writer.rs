use vstd::prelude::*;
use vstd::utf8::encode_utf8;

use crate::error::{Context, WallpaperError};

verus! {

/// The bytes of `path` in the settings call's narrow encoding.
pub open spec fn path_bytes(path: Seq<char>) -> Seq<u8> {
    encode_utf8(path)
}

/// Whether `path` can be handed to the settings call: no byte of it is the
/// terminator.
pub open spec fn is_passable(path: Seq<char>) -> bool {
    !path_bytes(path).contains(0u8)
}

/// What the settings call is given for `path`: its bytes, then the terminator.
pub open spec fn terminated_path(path: Seq<char>) -> Seq<u8> {
    path_bytes(path).push(0u8)
}

/// The null-terminated bytes to hand to the settings call that writes the
/// wallpaper. The empty path, which clears the wallpaper, gives the
/// terminator alone. A path with an embedded null byte is refused here, so
/// that no settings call is made for it.
pub fn encode_path(path: &str) -> (r: Result<Vec<u8>, WallpaperError>)
    ensures
        match r {
            Ok(v) => is_passable(path@) && v@ == terminated_path(path@),
            Err(e) => !is_passable(path@) && e == WallpaperError::InvalidInput,
        },
{
    let bytes = path.as_bytes();
    let mut out: Vec<u8> = Vec::new();
    let mut i: usize = 0;
    while i < bytes.len()
        invariant
            bytes@ == path_bytes(path@),
            i <= bytes@.len(),
            out@ == bytes@.subrange(0, i as int),
            forall|j: int| 0 <= j < i ==> bytes@[j] != 0u8,
        decreases bytes@.len() - i,
    {
        let b = bytes[i];
        if b == 0 {
            proof {
                assert(bytes@[i as int] == 0u8);
            }
            return Err(WallpaperError::InvalidInput);
        }
        out.push(b);
        i = i + 1;
        proof {
            assert(out@ =~= bytes@.subrange(0, i as int));
        }
    }
    proof {
        assert(out@ =~= bytes@);
    }
    out.push(0u8);
    Ok(out)
}

/// The outcome of the settings call that wrote the wallpaper, from its status
/// (zero on failure) and the error code that the operating system recorded
/// right after it.
pub fn set_outcome(status: i32, last_error: u32) -> (r: Result<(), WallpaperError>)
    ensures
        status != 0 ==> r == Ok::<(), WallpaperError>(()),
        status == 0 ==> r == Err::<(), WallpaperError>(
            WallpaperError::OsFailure { code: last_error, context: Context::Write },
        ),
{
    if status == 0 {
        Err(WallpaperError::OsFailure { code: last_error, context: Context::Write })
    } else {
        Ok(())
    }
}

} // verus!
