//! Device ids.

use vstd::prelude::*;
use vstd::utf8::{encode_utf8, is_ascii_chars};

use crate::error::{Error, ErrorView};
use crate::text::{is_ascii_alphanumeric, to_chars};

verus! {

/// The fewest bytes of a device id.
pub const MIN_DEVICE_ID_LEN: usize = 32;

/// The most bytes of a device id.
pub const MAX_DEVICE_ID_LEN: usize = 38;

/// Whether `c` may occur in a device id.
pub open spec fn is_id_char(c: char) -> bool {
    is_ascii_alphanumeric(c) || c == '-' || c == '_'
}

/// Whether `id` is a device id: 32 to 38 characters of `[a-zA-Z0-9_-]`.
pub open spec fn is_device_id(id: Seq<char>) -> bool {
    &&& MIN_DEVICE_ID_LEN <= id.len() <= MAX_DEVICE_ID_LEN
    &&& forall|i: int| 0 <= i < id.len() ==> is_id_char(#[trigger] id[i])
}

/// Whether `id` could leave the directory that a file name is meant for.
pub open spec fn is_path_unsafe(id: Seq<char>) -> bool {
    ||| exists|i: int| 0 <= i < id.len() - 1 && #[trigger] id[i] == '.' && id[i + 1] == '.'
    ||| id.contains('/')
    ||| id.contains('\\')
    ||| id.contains('\0')
}

/// The complaint about a device id.
pub open spec fn id_complaint(message: Seq<char>) -> ErrorView {
    ErrorView::Validation { message, field: Some("device_id"@) }
}

/// What is wrong with `id`, if anything: its length, then what makes it unsafe
/// as a file name, then any other character.
pub open spec fn device_id_error(id: Seq<char>) -> Option<ErrorView> {
    let len = encode_utf8(id).len();
    if !(MIN_DEVICE_ID_LEN <= len <= MAX_DEVICE_ID_LEN) {
        Some(id_complaint("device_id must be 32-38 characters"@))
    } else if is_path_unsafe(id) {
        Some(id_complaint("device_id contains invalid characters"@))
    } else if !(forall|i: int| 0 <= i < id.len() ==> is_id_char(#[trigger] id[i])) {
        Some(
            id_complaint(
                "device_id must contain only alphanumeric characters, hyphens, or underscores"@,
            ),
        )
    } else {
        None
    }
}

/// Exactly the device ids pass.
pub proof fn law_accepts_exactly_device_ids(id: Seq<char>)
    ensures
        device_id_error(id) is None <==> is_device_id(id),
{
    broadcast use vstd::utf8::group_utf8_lib;

    if forall|i: int| 0 <= i < id.len() ==> is_id_char(#[trigger] id[i]) {
        assert(is_ascii_chars(id));
        assert(encode_utf8(id).len() == id.len());
        assert(!is_path_unsafe(id)) by {
            if id.contains('/') {
                let i = choose|i: int| 0 <= i < id.len() && id[i] == '/';
                assert(is_id_char(id[i]));
            }
            if id.contains('\\') {
                let i = choose|i: int| 0 <= i < id.len() && id[i] == '\\';
                assert(is_id_char(id[i]));
            }
            if id.contains('\0') {
                let i = choose|i: int| 0 <= i < id.len() && id[i] == '\0';
                assert(is_id_char(id[i]));
            }
        }
    }
}

/// A device id that passes is safe as a file name: it holds no separator, no
/// NUL and no two dots in a row.
pub proof fn law_device_ids_are_path_safe(id: Seq<char>)
    requires
        is_device_id(id),
    ensures
        !is_path_unsafe(id),
{
    law_accepts_exactly_device_ids(id);
}

/// A device id passes if and only if it has 32 to 38 characters and each of them
/// is an ASCII letter, an ASCII digit, a hyphen or an underscore.
pub proof fn law_device_ids_by_their_characters(id: Seq<char>)
    ensures
        device_id_error(id) is None <==> 32 <= id.len() <= 38 && forall|i: int|
            0 <= i < id.len() ==> {
                ||| 'a' <= #[trigger] id[i] <= 'z'
                ||| 'A' <= id[i] <= 'Z'
                ||| '0' <= id[i] <= '9'
                ||| id[i] == '-'
                ||| id[i] == '_'
            },
{
    law_accepts_exactly_device_ids(id);
    if is_device_id(id) {
        assert forall|i: int| 0 <= i < id.len() implies ({
            ||| 'a' <= #[trigger] id[i] <= 'z'
            ||| 'A' <= id[i] <= 'Z'
            ||| '0' <= id[i] <= '9'
            ||| id[i] == '-'
            ||| id[i] == '_'
        }) by {
            assert(is_id_char(id[i]));
        }
    }
}

/// The complaint about a device id names the field, and tells what is wrong: the
/// length in bytes before anything else, then a separator, a NUL or two dots in a
/// row, then any other character.
pub proof fn law_device_id_complaints_tell_what_is_wrong(id: Seq<char>)
    ensures
        ({
            let len = encode_utf8(id).len();
            let unsafe_name = id.contains('/') || id.contains('\\') || id.contains('\0') || exists|
                i: int,
            |
                0 <= i < id.len() - 1 && #[trigger] id[i] == '.' && id[i + 1] == '.';
            device_id_error(id) matches Some(e) ==> {
                &&& e matches ErrorView::Validation { message, field }
                &&& field == Some("device_id"@)
                &&& message == (if len < 32 || len > 38 {
                    "device_id must be 32-38 characters"@
                } else if unsafe_name {
                    "device_id contains invalid characters"@
                } else {
                    "device_id must contain only alphanumeric characters, hyphens, or underscores"@
                })
            }
        }),
{
}

/// A complaint about a device id.
fn complain(message: &str) -> (r: Error)
    ensures
        r@ == id_complaint(message@),
{
    Error::Validation { message: message.to_owned(), field: Some("device_id".to_owned()) }
}

/// Validate a device id: 32–38 characters of `[a-zA-Z0-9_-]`.
pub fn validate_device_id(id: &str) -> (r: Result<(), Error>)
    ensures
        match r {
            Ok(_) => device_id_error(id@) is None && is_device_id(id@),
            Err(e) => device_id_error(id@) == Some(e@) && !is_device_id(id@),
        },
{
    proof {
        law_accepts_exactly_device_ids(id@);
    }
    let bytes = id.as_bytes();
    if bytes.len() < MIN_DEVICE_ID_LEN || bytes.len() > MAX_DEVICE_ID_LEN {
        return Err(complain("device_id must be 32-38 characters"));
    }
    let chars = to_chars(id);
    let mut unsafe_at: Option<usize> = None;
    let mut foreign_at: Option<usize> = None;
    let mut i: usize = 0;
    while i < chars.len()
        invariant
            i <= chars.len(),
            match unsafe_at {
                Some(j) => is_path_unsafe(chars@),
                None => forall|j: int|
                    0 <= j < i ==> (#[trigger] chars@[j]) != '/' && chars@[j] != '\\' && chars@[j]
                        != '\0' && !(j + 1 < chars.len() && chars@[j] == '.' && chars@[j + 1]
                        == '.'),
            },
            match foreign_at {
                Some(j) => j < chars.len() && !is_id_char(chars@[j as int]),
                None => forall|j: int| 0 <= j < i ==> is_id_char(#[trigger] chars@[j]),
            },
        decreases chars.len() - i,
    {
        let c = chars[i];
        if c == '/' || c == '\\' || c == '\0' {
            assert(chars@.contains(c));
            unsafe_at = Some(i);
        } else if c == '.' && i + 1 < chars.len() && chars[i + 1] == '.' {
            assert(chars@[i as int] == '.' && chars@[i + 1] == '.');
            unsafe_at = Some(i);
        }
        if !(('0' <= c && c <= '9') || ('A' <= c && c <= 'Z') || ('a' <= c && c <= 'z') || c == '-'
            || c == '_') {
            foreign_at = Some(i);
        }
        i = i + 1;
    }
    match unsafe_at {
        Some(_) => {
            return Err(complain("device_id contains invalid characters"));
        },
        None => {},
    }
    match foreign_at {
        Some(_) => Err(
            complain(
                "device_id must contain only alphanumeric characters, hyphens, or underscores",
            ),
        ),
        None => Ok(()),
    }
}

} // verus!
