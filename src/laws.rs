//! Properties that relate the writer's request to the reader's answer.
use vstd::prelude::*;
use vstd::utf8::{
    decode_utf8_encode_utf8, encode_utf8, encode_utf8_decode_utf8,
    encode_utf8_valid_utf8, is_leading_byte_width_1, partial_valid_utf8,
    partial_valid_utf8_extend_ascii_block, valid_utf8,
};

use crate::error::{Context, WallpaperError};
use crate::reader::{is_first_nul, lemma_first_nul_unique, read_outcome};
use crate::writer::{is_passable, path_bytes, terminated_path};

verus! {

/// Round trip: for every path that the writer accepts, if the settings call
/// that reads the wallpaper succeeds and its buffer starts with the bytes that
/// the writer handed over, whatever follows them, the reader returns that path.
pub proof fn lemma_write_then_read(path: Seq<char>, buf: Seq<u8>, status: i32, last_error: u32)
    requires
        is_passable(path),
        status != 0,
        terminated_path(path).len() <= buf.len(),
        buf.take(terminated_path(path).len() as int) == terminated_path(path),
    ensures
        read_outcome(status, buf, last_error) == Ok::<Seq<char>, WallpaperError>(path),
{
    let bytes = path_bytes(path);
    let n = bytes.len() as int;
    assert(buf[n] == buf.take(n + 1)[n]);
    assert forall|j: int| 0 <= j < n implies buf[j] != 0u8 by {
        assert(buf[j] == buf.take(n + 1)[j]);
        assert(bytes[j] == terminated_path(path)[j]);
        if buf[j] == 0u8 {
            assert(bytes.contains(0u8));
        }
    }
    assert(is_first_nul(buf, n));
    lemma_first_nul_unique(buf, n);
    assert(buf.take(n) =~= bytes);
    encode_utf8_valid_utf8(path);
    encode_utf8_decode_utf8(path);
}

/// Clearing, twice or any number of times: the empty path is always accepted
/// and always hands over the terminator alone, so each clear is decided by the
/// settings call's status only; a successful write is `Ok`, and a read whose
/// buffer then starts with the terminator gives the empty path.
pub proof fn lemma_clear_repeatable(status: i32, last_error: u32, buf: Seq<u8>)
    ensures
        is_passable(Seq::<char>::empty()),
        terminated_path(Seq::<char>::empty()) == seq![0u8],
        status != 0 && buf.len() > 0 && buf[0] == 0u8 ==> read_outcome(status, buf, last_error)
            == Ok::<Seq<char>, WallpaperError>(Seq::<char>::empty()),
{
    assert(encode_utf8(Seq::<char>::empty()) =~= Seq::<u8>::empty());
    assert(terminated_path(Seq::<char>::empty()) =~= seq![0u8]);
    if status != 0 && buf.len() > 0 && buf[0] == 0u8 {
        assert(buf.take(1) =~= seq![0u8]);
        lemma_write_then_read(Seq::<char>::empty(), buf, status, last_error);
    }
}

/// A path that fills the buffer to its last byte: when every byte before the
/// final terminator is a non-null ASCII byte, a successful read returns text
/// whose bytes are all of them, with none lost; a failed read, the way the
/// settings call reports a path too long for the buffer, is an `OsFailure`
/// and never a shortened path.
pub proof fn lemma_full_buffer(buf: Seq<u8>, status: i32, last_error: u32)
    requires
        buf.len() > 0,
        buf[buf.len() - 1] == 0u8,
        forall|j: int| 0 <= j < buf.len() - 1 ==> 0u8 < #[trigger] buf[j] <= 0x7fu8,
    ensures
        status != 0 ==> read_outcome(status, buf, last_error) is Ok && encode_utf8(
            read_outcome(status, buf, last_error)->Ok_0,
        ) == buf.take(buf.len() - 1),
        status == 0 ==> read_outcome(status, buf, last_error) == Err::<Seq<char>, WallpaperError>(
            WallpaperError::OsFailure { code: last_error, context: Context::Read },
        ),
{
    let n = buf.len() - 1;
    let text = buf.take(n);
    assert(is_first_nul(buf, n));
    lemma_first_nul_unique(buf, n);
    assert(text.subrange(0, 0) =~= Seq::<u8>::empty());
    assert(partial_valid_utf8(text, 0));
    assert forall|i: int| 0 <= 0 <= i < n <= text.len() implies #[trigger] is_leading_byte_width_1(
        text[i],
    ) by {
        assert(text[i] == buf[i]);
    }
    partial_valid_utf8_extend_ascii_block(text, 0, n);
    assert(text.subrange(0, n) =~= text);
    assert(valid_utf8(text));
    decode_utf8_encode_utf8(text);
}

/// Bytes before the first terminator that are not valid text make a
/// successful read a `DecodeError`, never a repaired or partial string.
pub proof fn lemma_invalid_text_refused(buf: Seq<u8>, k: int, status: i32, last_error: u32)
    requires
        status != 0,
        is_first_nul(buf, k),
        !valid_utf8(buf.take(k)),
    ensures
        read_outcome(status, buf, last_error) == Err::<Seq<char>, WallpaperError>(
            WallpaperError::DecodeError,
        ),
{
    lemma_first_nul_unique(buf, k);
}

} // verus!
