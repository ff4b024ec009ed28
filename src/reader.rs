use vstd::prelude::*;
use vstd::utf8::{decode_utf8, valid_utf8};

use crate::error::{Context, WallpaperError};

verus! {

/// Capacity, in bytes, of the buffer that the settings call fills with the
/// current wallpaper's path, terminator included.
pub const BUFFER_SIZE: usize = 2048;

/// `k` is the position of the first terminator in `buf`.
pub open spec fn is_first_nul(buf: Seq<u8>, k: int) -> bool {
    &&& 0 <= k < buf.len()
    &&& buf[k] == 0u8
    &&& forall|j: int| 0 <= j < k ==> buf[j] != 0u8
}

/// `buf` holds a terminator somewhere.
pub open spec fn has_nul(buf: Seq<u8>) -> bool {
    exists|k: int| is_first_nul(buf, k)
}

/// The bytes of `buf` before its first terminator.
pub open spec fn before_nul(buf: Seq<u8>) -> Seq<u8>
    recommends
        has_nul(buf),
{
    buf.take(choose|k: int| is_first_nul(buf, k))
}

/// What reading the wallpaper gives, from the settings call's status (zero on
/// failure), the buffer that it filled and the error code that the operating
/// system recorded right after it. An unterminated buffer holds no text.
pub open spec fn read_outcome(status: i32, buf: Seq<u8>, last_error: u32) -> Result<
    Seq<char>,
    WallpaperError,
> {
    if status == 0 {
        Err(WallpaperError::OsFailure { code: last_error, context: Context::Read })
    } else if !has_nul(buf) {
        Err(WallpaperError::DecodeError)
    } else if !valid_utf8(before_nul(buf)) {
        Err(WallpaperError::DecodeError)
    } else {
        Ok(decode_utf8(before_nul(buf)))
    }
}

/// There is at most one first terminator.
pub proof fn lemma_first_nul_unique(buf: Seq<u8>, k: int)
    requires
        is_first_nul(buf, k),
    ensures
        has_nul(buf),
        before_nul(buf) == buf.take(k),
{
    let c = choose|c: int| is_first_nul(buf, c);
    assert(is_first_nul(buf, c));
    if c < k {
        assert(buf[c] != 0u8);
    } else if k < c {
        assert(buf[k] != 0u8);
    }
}

/// Relies on `String::from_utf8`: it succeeds exactly on valid UTF-8, and then
/// holds the characters that the bytes encode.
#[verifier::external_body]
fn utf8_to_string(bytes: Vec<u8>) -> (r: Option<String>)
    ensures
        r.is_some() == valid_utf8(bytes@),
        r.is_some() ==> r.unwrap()@ == decode_utf8(bytes@),
{
    String::from_utf8(bytes).ok()
}

/// The outcome of the settings call that read the wallpaper into `buf`: its
/// status (zero on failure) and the error code that the operating system
/// recorded right after it. On success the path is the text before the first
/// terminator; the rest of the buffer never reaches it. An empty path, which
/// means that no wallpaper is set, is `Ok` of the empty string; a buffer with
/// no terminator at all is a `DecodeError`.
pub fn get_outcome(status: i32, buf: &[u8], last_error: u32) -> (r: Result<
    String,
    WallpaperError,
>)
    ensures
        match r {
            Ok(s) => read_outcome(status, buf@, last_error) == Ok::<
                Seq<char>,
                WallpaperError,
            >(s@),
            Err(e) => read_outcome(status, buf@, last_error) == Err::<Seq<char>, WallpaperError>(
                e,
            ),
        },
{
    if status == 0 {
        return Err(WallpaperError::OsFailure { code: last_error, context: Context::Read });
    }
    let mut text: Vec<u8> = Vec::new();
    let mut i: usize = 0;
    while i < buf.len()
        invariant
            status != 0,
            i <= buf@.len(),
            text@ == buf@.take(i as int),
            forall|j: int| 0 <= j < i ==> buf@[j] != 0u8,
        decreases buf@.len() - i,
    {
        if buf[i] == 0 {
            proof {
                lemma_first_nul_unique(buf@, i as int);
            }
            return match utf8_to_string(text) {
                Some(s) => Ok(s),
                None => Err(WallpaperError::DecodeError),
            };
        }
        text.push(buf[i]);
        i = i + 1;
        proof {
            assert(text@ =~= buf@.take(i as int));
        }
    }
    proof {
        if has_nul(buf@) {
            let k = choose|k: int| is_first_nul(buf@, k);
            assert(buf@[k] == 0u8);
        }
    }
    Err(WallpaperError::DecodeError)
}

} // verus!
