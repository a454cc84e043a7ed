//! Filenames: what a client sends is sanitized and bounded in length before
//! it is stored or sent back.

use vstd::prelude::*;
use vstd::string::*;
use vstd::utf8::*;

verus! {

/// Names longer than this many bytes are shortened.
pub const MAX_NAME_BYTES: usize = 200;

/// Bytes kept from the front of a name that is shortened.
pub const HEAD_BYTES: usize = 100;

/// Bytes kept from the end of a name that is shortened.
pub const TAIL_BYTES: usize = 50;

/// The characters that have a meaning in paths and in quoted header values.
pub open spec fn is_illegal_char(c: char) -> bool {
    c == '/' || c == '?' || c == '<' || c == '>' || c == '\\' || c == ':' || c == '*' || c == '|'
        || c == '"'
}

/// The control characters.
pub open spec fn is_control_char(c: char) -> bool {
    c <= '\u{1f}' || '\u{80}' <= c <= '\u{9f}'
}

/// A name without characters that have a meaning in paths or headers.
pub open spec fn is_clean(name: Seq<char>) -> bool {
    forall|i: int|
        0 <= i < name.len() ==> !is_illegal_char(#[trigger] name[i]) && !is_control_char(name[i])
}

/// A name that can stand for a file: clean, not empty, and not one of the
/// two names that mean a directory.
pub open spec fn is_safe_name(name: Seq<char>) -> bool {
    &&& is_clean(name)
    &&& name.len() > 0
    &&& name != "."@
    &&& name != ".."@
}

/// What `sanitize_filename` makes of a name, with the rules for Windows off,
/// truncation on and the empty replacement.
pub uninterp spec fn sanitized_name(name: Seq<char>) -> Seq<char>;

/// `sanitize_filename::sanitize_with_options`, with the rules for Windows
/// off, truncation on and the empty replacement. The result is named by
/// [`sanitized_name`]. Claimed of it beside the name: it holds none of the
/// characters that the crate removes in every mode, the illegal ones and the
/// control characters.
#[verifier::external_body]
fn sanitize(name: &str) -> (clean: String)
    ensures
        clean@ == sanitized_name(name@),
        is_clean(clean@),
{
    sanitize_filename::sanitize_with_options(
        name,
        sanitize_filename::Options { windows: false, truncate: true, replacement: "" },
    )
}

/// The last character boundary of a UTF-8 text at or before `index`.
pub open spec fn boundary_at_or_before(bytes: Seq<u8>, index: int) -> int
    decreases index,
{
    if index <= 0 || is_char_boundary(bytes, index) {
        index
    } else {
        boundary_at_or_before(bytes, index - 1)
    }
}

/// The first character boundary of a UTF-8 text at or after `index`.
pub open spec fn boundary_at_or_after(bytes: Seq<u8>, index: int) -> int
    decreases bytes.len() - index,
{
    if index >= bytes.len() || is_char_boundary(bytes, index) {
        index
    } else {
        boundary_at_or_after(bytes, index + 1)
    }
}

/// A long name, shortened: the characters that lie within its first 100
/// bytes, three dots, and the characters that lie within its last 50 bytes.
pub open spec fn shortened(name: Seq<char>) -> Seq<char> {
    let bytes = encode_utf8(name);
    let head_end = boundary_at_or_before(bytes, HEAD_BYTES as int);
    let tail_start = boundary_at_or_after(bytes, bytes.len() - TAIL_BYTES);
    decode_utf8(bytes.subrange(0, head_end)) + "..."@ + decode_utf8(
        bytes.subrange(tail_start, bytes.len() as int),
    )
}

/// The stored name for a sanitized name: a placeholder if nothing usable is
/// left, the shortened name if it is longer than 200 bytes, else the name
/// itself.
pub open spec fn bounded_name(clean: Seq<char>) -> Seq<char> {
    if clean.len() == 0 || clean == "."@ || clean == ".."@ {
        "unknown_file"@
    } else if encode_utf8(clean).len() > MAX_NAME_BYTES {
        shortened(clean)
    } else {
        clean
    }
}

proof fn lemma_part_is_clean(whole: Seq<char>, part: Seq<char>, before: Seq<char>, after: Seq<char>)
    requires
        is_clean(whole),
        whole =~= before + part + after,
    ensures
        is_clean(part),
{
    assert forall|i: int| 0 <= i < part.len() implies !is_illegal_char(#[trigger] part[i])
        && !is_control_char(part[i]) by {
        assert(part[i] == whole[before.len() + i]);
    }
}

/// Bounds a sanitized name. A clean name stays clean, and the result can
/// always stand for a file.
pub fn bound_filename(clean: String) -> (name: String)
    ensures
        name@ == bounded_name(clean@),
        is_clean(clean@) ==> is_safe_name(name@),
{
    proof {
        reveal_strlit(".");
        reveal_strlit("..");
        reveal_strlit("...");
        reveal_strlit("unknown_file");
    }
    let text = clean.as_str();
    let ghost bytes = encode_utf8(clean@);
    let one_dot = String::from_str(".");
    let two_dots = String::from_str("..");
    if text.is_empty() || clean.eq(&one_dot) || clean.eq(&two_dots) {
        return String::from_str("unknown_file");
    }
    let raw = text.as_bytes();
    let length = raw.len();
    assert(length == bytes.len()) by {
        vstd::slice::axiom_spec_len(raw);
    }
    if length <= MAX_NAME_BYTES {
        return clean;
    }
    proof {
        encode_utf8_valid_utf8(clean@);
        is_char_boundary_start_end_of_seq(bytes);
    }
    let mut head_end: usize = HEAD_BYTES;
    while !text.is_char_boundary(head_end)
        invariant
            text@ == clean@,
            bytes == encode_utf8(clean@),
            valid_utf8(bytes),
            head_end <= HEAD_BYTES,
            boundary_at_or_before(bytes, head_end as int) == boundary_at_or_before(
                bytes,
                HEAD_BYTES as int,
            ),
        decreases head_end,
    {
        head_end = head_end - 1;
    }
    let mut tail_start: usize = length - TAIL_BYTES;
    while !text.is_char_boundary(tail_start)
        invariant
            text@ == clean@,
            bytes == encode_utf8(clean@),
            valid_utf8(bytes),
            is_char_boundary(bytes, bytes.len() as int),
            length == bytes.len(),
            tail_start <= length,
            boundary_at_or_after(bytes, tail_start as int) == boundary_at_or_after(
                bytes,
                length - TAIL_BYTES,
            ),
        decreases length - tail_start,
    {
        tail_start = tail_start + 1;
    }
    let (head, head_rest) = text.split_at(head_end);
    let (tail_rest, tail) = text.split_at(tail_start);
    proof {
        encode_utf8_decode_utf8(clean@);
        encode_utf8_decode_utf8(head@);
        encode_utf8_decode_utf8(head_rest@);
        encode_utf8_decode_utf8(tail_rest@);
        encode_utf8_decode_utf8(tail@);
        decode_utf8_split(bytes, head_end as int);
        decode_utf8_split(bytes, tail_start as int);
        assert(clean@ =~= Seq::<char>::empty() + head@ + head_rest@);
        assert(clean@ =~= tail_rest@ + tail@ + Seq::<char>::empty());
        if is_clean(clean@) {
            lemma_part_is_clean(clean@, head@, Seq::<char>::empty(), head_rest@);
            lemma_part_is_clean(clean@, tail@, tail_rest@, Seq::<char>::empty());
        }
    }
    let mut name = String::from_str(head);
    name.append("...");
    name.append(tail);
    proof {
        assert(name@ =~= shortened(clean@));
        assert(name@.len() >= 3);
        if is_clean(clean@) {
            assert forall|i: int| 0 <= i < name@.len() implies !is_illegal_char(
                #[trigger] name@[i],
            ) && !is_control_char(name@[i]) by {
                if i < head@.len() {
                    assert(name@[i] == head@[i]);
                } else if i < head@.len() + 3 {
                    assert(name@[i] == "..."@[i - head@.len()]);
                } else {
                    assert(name@[i] == tail@[i - head@.len() - 3]);
                }
            }
        }
    }
    name
}

/// Makes the name that a client sent safe to store and to send back: the
/// name is sanitized, then bounded. The result never holds a path separator
/// or a quote, is never empty and never names a directory.
pub fn sanitize_filename(filename: &str) -> (name: String)
    ensures
        name@ == bounded_name(sanitized_name(filename@)),
        is_safe_name(name@),
{
    bound_filename(sanitize(filename))
}

} // verus!
