//! An incremental `multipart/form-data` document builder.
//!
//! A [`FormData`] wraps a byte sink, generates a boundary token at
//! construction, and appends one part to the sink per write operation. The
//! contracts state, byte for byte, what each operation appends; the spec
//! functions in [`wire`] define the format.
//!
//! Accepted limitations, visible in the contracts: names, filenames and
//! values are emitted as-is, with no escaping of quote characters, and
//! payloads are not scanned for accidental occurrences of the boundary.

use vstd::prelude::*;
use vstd::string::StrSliceExecFns;
use vstd::string::StringExecFns;

pub mod boundary;
pub mod wire;

use crate::wire::closing_bytes;
use crate::wire::content_type_text;
use crate::wire::field_part_bytes;
use crate::wire::part_header_bytes;
use crate::wire::part_header_text;

verus! {

/// The misuse error: an operation was invoked after `finish` succeeded.
#[derive(Clone, Copy, Debug, PartialEq, Eq, Structural)]
pub enum FormError {
    AlreadyFinished,
}

impl FormError {
    /// A short description of the error, for callers that report it.
    pub fn message(&self) -> (r: &'static str)
        ensures
            r@ == "builder already finished"@,
    {
        "builder already finished"
    }
}

/// Law: the content-type header text is a function of the boundary alone.
/// Every operation of the builder keeps the boundary (each one's contract
/// says so), so the value `content_type_header` reports is the same before
/// and after any write and before and after `finish`.
pub proof fn lemma_content_type_header_stable(before: FormData, after: FormData)
    requires
        after.boundary_chars() == before.boundary_chars(),
    ensures
        content_type_text(after.boundary_chars()) == content_type_text(before.boundary_chars()),
{
}

/// A `multipart/form-data` document builder.
///
/// The builder owns the sink until `finish` succeeds, at which point the sink
/// is handed back to the caller and every further operation fails with
/// [`FormError::AlreadyFinished`].
#[derive(Debug, Clone)]
pub struct FormData {
    writer: Option<Vec<u8>>,
    boundary: String,
}

impl FormData {
    /// Whether `finish` has already succeeded; no write may run afterwards.
    pub closed spec fn is_finished(&self) -> bool {
        self.writer is None
    }

    /// The bytes written to the sink so far (meaningful until finished).
    pub closed spec fn doc(&self) -> Seq<u8> {
        self.writer.unwrap()@
    }

    /// The boundary token that delimits every part of this document.
    pub closed spec fn boundary_chars(&self) -> Seq<char> {
        self.boundary@
    }

    /// Starts a document that delimits its parts with the given boundary.
    ///
    /// The fixed document layout for a known boundary makes the output
    /// predictable; `new` chooses the boundary itself.
    pub fn with_boundary(writer: Vec<u8>, boundary: &str) -> (form: FormData)
        ensures
            !form.is_finished(),
            form.doc() == writer@,
            form.boundary_chars() == boundary@,
    {
        FormData { writer: Some(writer), boundary: String::from_str(boundary) }
    }

    /// The value of the transport-level `Content-Type` header for this
    /// document: `multipart/form-data; boundary=` followed by the exact
    /// boundary in use. Pure; callable before and after any write or finish.
    pub fn content_type_header(&self) -> (r: String)
        ensures
            r@ == content_type_text(self.boundary_chars()),
    {
        let s = String::from_str("multipart/form-data; boundary=");
        s.concat(self.boundary.as_str())
    }

    /// The boundary token in use, exactly as it appears in the document.
    pub fn boundary(&self) -> (r: &String)
        ensures
            r@ == self.boundary_chars(),
    {
        &self.boundary
    }

    /// Starts writing a `multipart/form-data` document to `writer`, with a
    /// freshly generated boundary: 68 characters, the first 36 of them `-`,
    /// the tail encoding a nonce of time-derived and random bytes.
    pub fn new(writer: Vec<u8>) -> (form: FormData)
        ensures
            !form.is_finished(),
            form.doc() == writer@,
            crate::boundary::boundary_wf(form.boundary_chars()),
            exists|nonce: Seq<u8>|
                nonce.len() == 24 && form.boundary_chars().skip(36) == crate::boundary::base64_url_of(
                    nonce,
                ),
    {
        FormData { writer: Some(writer), boundary: crate::boundary::generate_boundary() }
    }

    /// Appends bytes to the owned sink.
    fn sink_append(&mut self, bytes: Vec<u8>)
        requires
            !old(self).is_finished(),
        ensures
            !final(self).is_finished(),
            final(self).boundary_chars() == old(self).boundary_chars(),
            final(self).doc() == old(self).doc() + bytes@,
    {
        let mut bytes = bytes;
        match &mut self.writer {
            Some(w) => {
                w.append(&mut bytes);
            },
            None => {},
        }
    }

    /// Emits the delimiter and header block that precede one part's payload.
    fn write_header(&mut self, name: &str, filename: Option<&str>, content_type: Option<&str>) -> (r:
        Result<(), FormError>)
        ensures
            old(self).is_finished() ==> r is Err && r->Err_0 == FormError::AlreadyFinished
                && *final(self) == *old(self),
            !old(self).is_finished() ==> r is Ok && !final(self).is_finished()
                && final(self).boundary_chars() == old(self).boundary_chars()
                && final(self).doc() == old(self).doc() + part_header_bytes(
                old(self).boundary_chars(),
                name@,
                filename.deep_view(),
                content_type.deep_view(),
            ),
    {
        if self.writer.is_none() {
            return Err(FormError::AlreadyFinished);
        }
        let mut h = String::from_str("--");
        h.append(self.boundary.as_str());
        h.append("\r\n");
        h.append("Content-Disposition: form-data; name=\"");
        h.append(name);
        h.append("\"");
        match filename {
            Some(f) => {
                h.append("; filename=\"");
                h.append(f);
                h.append("\"");
            },
            None => {},
        }
        h.append("\r\n");
        match content_type {
            Some(c) => {
                h.append("Content-Type: ");
                h.append(c);
                h.append("\r\n");
            },
            None => {},
        }
        h.append("\r\n");
        proof {
            assert(h@ =~= part_header_text(
                self.boundary_chars(),
                name@,
                filename.deep_view(),
                content_type.deep_view(),
            ));
        }
        self.sink_append(h.as_str().as_bytes_vec());
        Ok(())
    }

    /// Writes a non-file field: a header block with neither filename nor
    /// content type, then the value and a line terminator.
    pub fn write_field(&mut self, name: &str, value: &str) -> (r: Result<(), FormError>)
        ensures
            old(self).is_finished() ==> r is Err && r->Err_0 == FormError::AlreadyFinished
                && *final(self) == *old(self),
            !old(self).is_finished() ==> r is Ok && !final(self).is_finished()
                && final(self).boundary_chars() == old(self).boundary_chars()
                && final(self).doc() == old(self).doc() + field_part_bytes(
                old(self).boundary_chars(),
                name@,
                value@,
            ),
    {
        match self.write_header(name, None, None) {
            Err(e) => Err(e),
            Ok(()) => {
                self.sink_append(value.as_bytes_vec());
                self.sink_append("\r\n".as_bytes_vec());
                Ok(())
            },
        }
    }

    /// Writes a file field, copying `content` into the document verbatim: a
    /// header block carrying the optional filename and the content type, then
    /// the bytes and a line terminator.
    pub fn write_file(
        &mut self,
        name: &str,
        content: &[u8],
        filename: Option<&str>,
        content_type: &str,
    ) -> (r: Result<(), FormError>)
        ensures
            old(self).is_finished() ==> r is Err && r->Err_0 == FormError::AlreadyFinished
                && *final(self) == *old(self),
            !old(self).is_finished() ==> r is Ok && !final(self).is_finished()
                && final(self).boundary_chars() == old(self).boundary_chars()
                && final(self).doc() == old(self).doc() + crate::wire::file_part_bytes(
                old(self).boundary_chars(),
                name@,
                filename.deep_view(),
                content_type@,
                content@,
            ),
    {
        match self.write_header(name, filename, Some(content_type)) {
            Err(e) => Err(e),
            Ok(()) => {
                self.sink_append(vstd::slice::slice_to_vec(content));
                self.sink_append("\r\n".as_bytes_vec());
                Ok(())
            },
        }
    }

    /// Finishes the document: writes the terminal marker and hands the sink
    /// back. A second call fails and writes nothing.
    pub fn finish(&mut self) -> (r: Result<Vec<u8>, FormError>)
        ensures
            old(self).is_finished() ==> r is Err && r->Err_0 == FormError::AlreadyFinished
                && *final(self) == *old(self),
            !old(self).is_finished() ==> r is Ok && final(self).is_finished()
                && final(self).boundary_chars() == old(self).boundary_chars()
                && r->Ok_0@ == old(self).doc() + closing_bytes(old(self).boundary_chars()),
    {
        match self.writer.take() {
            None => Err(FormError::AlreadyFinished),
            Some(mut w) => {
                let mut t = String::from_str("--");
                t.append(self.boundary.as_str());
                t.append("--\r\n");
                let mut bytes = t.as_str().as_bytes_vec();
                w.append(&mut bytes);
                Ok(w)
            },
        }
    }
}

} // verus!
