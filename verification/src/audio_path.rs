//! Rules about audio file paths: the extension of a path, the set of
//! container and codec extensions the engine supports, and the errors that
//! `process_file` reports.
//!
//! The extension is only consulted as a fallback explanation: when the
//! native call on an existing file fails and the file's extension is not in
//! the supported set, the unsupported extension is reported in preference
//! to the opaque native status, because it is the more actionable cause.

use vstd::prelude::*;

use crate::engine::check_fn_call_status;
use crate::engine::failed_call_error;
use crate::error::LeopardError;
use crate::error::LeopardErrorStatus;
use crate::status::PvStatus;
use crate::text::str_eq;

verus! {

/// The index of the last occurrence of `c` in `s`, or `-1` if `c` does not
/// occur.
pub open spec fn spec_last_index_of(s: Seq<char>, c: char) -> int
    decreases s.len(),
{
    if s.len() == 0 {
        -1
    } else if s[s.len() - 1] == c {
        s.len() - 1
    } else {
        spec_last_index_of(s.drop_last(), c)
    }
}

proof fn lemma_last_index_of_found(s: Seq<char>, c: char, k: int)
    requires
        0 <= k < s.len(),
        s[k] == c,
        forall|j: int| k < j < s.len() ==> s[j] != c,
    ensures
        spec_last_index_of(s, c) == k,
    decreases s.len(),
{
    if s[s.len() - 1] == c {
        assert(k == s.len() - 1);
    } else {
        assert(k < s.len() - 1);
        assert(s.drop_last()[k] == c);
        assert(forall|j: int| k < j < s.len() - 1 ==> s.drop_last()[j] == s[j]);
        lemma_last_index_of_found(s.drop_last(), c, k);
    }
}

proof fn lemma_last_index_of_absent(s: Seq<char>, c: char)
    requires
        forall|j: int| 0 <= j < s.len() ==> s[j] != c,
    ensures
        spec_last_index_of(s, c) == -1,
    decreases s.len(),
{
    if s.len() > 0 {
        assert(forall|j: int| 0 <= j < s.len() - 1 ==> s.drop_last()[j] == s[j]);
        lemma_last_index_of_absent(s.drop_last(), c);
    }
}

/// Finds the last occurrence of `c` in `s`.
fn last_index_of(s: &str, c: char) -> (r: Option<usize>)
    ensures
        r matches Some(i) ==> i == spec_last_index_of(s@, c) && i < s@.len(),
        r is None ==> spec_last_index_of(s@, c) == -1,
{
    let len = s.unicode_len();
    let mut i = len;
    while i > 0
        invariant
            len == s@.len(),
            0 <= i <= len,
            forall|j: int| i <= j < len ==> s@[j] != c,
        decreases i,
    {
        i = i - 1;
        if s.get_char(i) == c {
            proof {
                lemma_last_index_of_found(s@, c, i as int);
            }
            return Some(i);
        }
    }
    proof {
        lemma_last_index_of_absent(s@, c);
    }
    None
}

/// The final component of a path: everything after the last `/`, or the
/// whole path if it has none.
pub open spec fn spec_file_name(p: Seq<char>) -> Seq<char> {
    p.subrange(spec_last_index_of(p, '/') + 1, p.len() as int)
}

/// The extension of a path: the part of its final component after the last
/// `.`, or empty if the component has no `.` apart from a leading one.
pub open spec fn spec_extension_of(p: Seq<char>) -> Seq<char> {
    let name = spec_file_name(p);
    let dot = spec_last_index_of(name, '.');
    if dot >= 1 {
        name.subrange(dot + 1, name.len() as int)
    } else {
        Seq::empty()
    }
}

/// Extracts the extension of `path`, as `spec_extension_of` describes it.
pub fn extension_of(path: &str) -> (ext: String)
    ensures
        ext@ == spec_extension_of(path@),
{
    let path_len = path.unicode_len();
    let name_start = match last_index_of(path, '/') {
        Some(i) => i + 1,
        None => 0,
    };
    let name = path.substring_char(name_start, path_len);
    proof {
        assert(name@ == spec_file_name(path@));
    }
    match last_index_of(name, '.') {
        Some(dot) if dot >= 1 => {
            let ext = name.substring_char(dot + 1, name.unicode_len());
            String::from_str(ext)
        },
        _ => String::new(),
    }
}

/// Whether `e` is one of the audio container or codec extensions the
/// engine supports.
pub open spec fn spec_valid_extension(e: Seq<char>) -> bool {
    ||| e == "3gp"@
    ||| e == "flac"@
    ||| e == "m4a"@
    ||| e == "mp3"@
    ||| e == "mp4"@
    ||| e == "ogg"@
    ||| e == "opus"@
    ||| e == "vorbis"@
    ||| e == "wav"@
    ||| e == "webm"@
}

/// Checks `ext` against the supported extension set.
pub fn is_valid_extension(ext: &str) -> (r: bool)
    ensures
        r == spec_valid_extension(ext@),
{
    str_eq(ext, "3gp") || str_eq(ext, "flac") || str_eq(ext, "m4a") || str_eq(ext, "mp3")
        || str_eq(ext, "mp4") || str_eq(ext, "ogg") || str_eq(ext, "opus") || str_eq(
        ext,
        "vorbis",
    ) || str_eq(ext, "wav") || str_eq(ext, "webm")
}

/// The error for an audio path that does not exist on disk, checked before
/// the native call so that a missing file is told apart from an
/// unsupported format.
pub fn missing_audio_file_error(path: &str) -> (e: LeopardError)
    ensures
        e.status == LeopardErrorStatus::ArgumentError,
        e.message@ == "Could not find the audio file at `"@ + path@ + "`"@,
        e.message_stack@.len() == 0,
{
    let mut message = String::from_str("Could not find the audio file at `");
    message.append(path);
    message.append("`");
    LeopardError::new_with_stack(LeopardErrorStatus::ArgumentError, message.as_str(), Vec::new())
}

/// What the error for a failed native file-processing call looks like: an
/// unsupported extension is named in an `ArgumentError`; otherwise the
/// native status and its diagnostic stack are reported.
pub open spec fn process_file_failure(
    e: LeopardError,
    path: Seq<char>,
    status: PvStatus,
    stack_fetch: Result<Vec<String>, PvStatus>,
) -> bool {
    if !spec_valid_extension(spec_extension_of(path)) {
        &&& e.status == LeopardErrorStatus::ArgumentError
        &&& e.message@ == "Specified file with extension '"@ + spec_extension_of(path)
            + "' is not supported"@
        &&& e.message_stack@.len() == 0
    } else {
        failed_call_error(e, status, "pv_leopard_process_file"@, stack_fetch)
    }
}

/// Builds the error for a native file-processing call that returned the
/// non-success `status` on an existing file.  `stack_fetch` is the outcome
/// of the diagnostic-stack retrieval, as in `check_fn_call_status`.
pub fn process_file_failure_error(
    path: &str,
    status: PvStatus,
    stack_fetch: Result<Vec<String>, PvStatus>,
) -> (e: LeopardError)
    requires
        status != PvStatus::SUCCESS,
    ensures
        process_file_failure(e, path@, status, stack_fetch),
{
    let ext = extension_of(path);
    if !is_valid_extension(ext.as_str()) {
        let mut message = String::from_str("Specified file with extension '");
        message.append(ext.as_str());
        message.append("' is not supported");
        LeopardError::new_with_stack(
            LeopardErrorStatus::ArgumentError,
            message.as_str(),
            Vec::new(),
        )
    } else {
        match check_fn_call_status(status, "pv_leopard_process_file", stack_fetch) {
            Err(e) => e,
            Ok(_) => unreached(),
        }
    }
}

/// When the native call fails on a file whose extension is outside the
/// supported set, the reported failure is the unsupported extension, as an
/// `ArgumentError` — never the underlying native status.
pub proof fn lemma_unsupported_extension_masks_native_status(
    e: LeopardError,
    path: Seq<char>,
    status: PvStatus,
    stack_fetch: Result<Vec<String>, PvStatus>,
)
    requires
        process_file_failure(e, path, status, stack_fetch),
        !spec_valid_extension(spec_extension_of(path)),
    ensures
        e.status == LeopardErrorStatus::ArgumentError,
        forall|s: PvStatus| e.status != LeopardErrorStatus::LibraryError(s),
{
}

} // verus!
