//! The `multipart/form-data` wire format, as mathematical byte sequences.
//!
//! Every operation of the builder appends one of the byte sequences defined
//! here to the document. Header lines are character sequences encoded as
//! UTF-8; payload bytes are copied verbatim.

use vstd::prelude::*;
use vstd::utf8::encode_utf8;

verus! {

/// The line terminator used throughout the document.
pub open spec fn crlf() -> Seq<char> {
    "\r\n"@
}

/// The header block that precedes one part's payload: the boundary delimiter
/// line, the `Content-Disposition` line (with an optional `filename`
/// parameter), an optional `Content-Type` line, and the blank line that
/// separates headers from the payload.
pub open spec fn part_header_text(
    boundary: Seq<char>,
    name: Seq<char>,
    filename: Option<Seq<char>>,
    content_type: Option<Seq<char>>,
) -> Seq<char> {
    "--"@ + boundary + "\r\n"@ + "Content-Disposition: form-data; name=\""@ + name + "\""@
        + (match filename {
        Some(f) => "; filename=\""@ + f + "\""@,
        None => Seq::<char>::empty(),
    }) + "\r\n"@ + (match content_type {
        Some(c) => "Content-Type: "@ + c + "\r\n"@,
        None => Seq::<char>::empty(),
    }) + "\r\n"@
}

/// The UTF-8 bytes of a part's header block.
pub open spec fn part_header_bytes(
    boundary: Seq<char>,
    name: Seq<char>,
    filename: Option<Seq<char>>,
    content_type: Option<Seq<char>>,
) -> Seq<u8> {
    encode_utf8(part_header_text(boundary, name, filename, content_type))
}

/// The bytes a textual field contributes to the document: a header block with
/// neither filename nor content type, then the value and a line terminator.
pub open spec fn field_part_bytes(boundary: Seq<char>, name: Seq<char>, value: Seq<char>) -> Seq<
    u8,
> {
    part_header_bytes(boundary, name, None, None) + encode_utf8(value) + encode_utf8(crlf())
}

/// The bytes a file contributes to the document: a header block carrying the
/// optional filename and the content type, then the file's bytes copied
/// verbatim, and a line terminator.
pub open spec fn file_part_bytes(
    boundary: Seq<char>,
    name: Seq<char>,
    filename: Option<Seq<char>>,
    content_type: Seq<char>,
    content: Seq<u8>,
) -> Seq<u8> {
    part_header_bytes(boundary, name, filename, Some(content_type)) + content + encode_utf8(crlf())
}

/// The terminal marker that closes the document.
pub open spec fn closing_bytes(boundary: Seq<char>) -> Seq<u8> {
    encode_utf8("--"@ + boundary + "--\r\n"@)
}

/// The transport-level `Content-Type` header value that announces a document
/// delimited by `boundary`.
pub open spec fn content_type_text(boundary: Seq<char>) -> Seq<char> {
    "multipart/form-data; boundary="@ + boundary
}

} // verus!
