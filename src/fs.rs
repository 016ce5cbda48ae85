//! What every backend decides once the operating system has answered: these
//! functions take that answer and give the result of the path operation.

use vstd::prelude::*;
use vstd::utf8::{decode_utf8, valid_utf8};

use crate::error::{Error, IoKind};
use crate::lines::{lemma_no_lines_iff_empty, lines_of, split_lines};

verus! {

/// Whether a probe of a path found it.
pub open spec fn exists_of<T>(probe: Result<T, IoKind>) -> bool {
    probe is Ok
}

/// `out` is `r` with the path attached to its failure.
pub open spec fn attributed<T>(path: Seq<char>, r: Result<T, IoKind>, out: Result<T, Error>) -> bool {
    match r {
        Ok(v) => out matches Ok(w) && w == v,
        Err(kind) => out matches Err(Error::Io { kind: k, path: p }) && k == kind && p@ == path,
    }
}

/// `r` is the first line that `first` brought, its failure, or the missing-line error.
pub open spec fn first_line_result(first: Option<Result<String, Error>>, r: Result<String, Error>) -> bool {
    match first {
        Some(Ok(l)) => r matches Ok(x) && x@ == l@,
        Some(Err(e)) => r matches Err(x) && x == e,
        None => r matches Err(Error::MissingEntity { name }) && name@ == "line"@,
    }
}

/// Whether a path exists, from the answer to a probe of it: any failure means no.
pub fn exists_from<T>(probe: Result<T, IoKind>) -> (r: bool)
    ensures
        r == exists_of(probe),
{
    match probe {
        Ok(_) => true,
        Err(_) => false,
    }
}

/// Attaches `path` to the failure of an operation on it.
pub fn with_path<T>(path: &str, r: Result<T, IoKind>) -> (out: Result<T, Error>)
    ensures
        attributed(path@, r, out),
{
    match r {
        Ok(v) => Ok(v),
        Err(kind) => Err(Error::io(kind, path)),
    }
}

/// The first line of a file, from the first item of its line sequence.
pub fn first_line(first: Option<Result<String, Error>>) -> (r: Result<String, Error>)
    ensures
        first_line_result(first, r),
{
    match first {
        Some(Ok(l)) => Ok(l),
        Some(Err(e)) => Err(e),
        None => {
            let e = Error::missing_entity("line");
            Err(e)
        },
    }
}

/// The line sequence of a file read whole: its lines, or its read failure alone.
pub fn content_lines(content: Result<String, Error>) -> (r: Vec<Result<String, Error>>)
    ensures
        match content {
            Ok(t) => r@.len() == lines_of(t@).len() && forall|i: int|
                0 <= i < r@.len() ==> (#[trigger] r@[i] matches Ok(l) && l@ == lines_of(t@)[i]),
            Err(e) => r@.len() == 1 && (r@[0] matches Err(x) && x == e),
        },
{
    match content {
        Ok(t) => {
            let ls = split_lines(t.as_str());
            let mut r: Vec<Result<String, Error>> = Vec::new();
            let mut i: usize = 0;
            while i < ls.len()
                invariant
                    i <= ls@.len(),
                    r@.len() == i,
                    forall|j: int| 0 <= j < i ==> (#[trigger] r@[j] matches Ok(l) && l == ls@[j]),
                decreases ls@.len() - i,
            {
                r.push(Ok(ls[i].clone()));
                i = i + 1;
            }
            proof {
                assert forall|j: int| 0 <= j < r@.len() implies (#[trigger] r@[j] matches Ok(l)
                    && l@ == lines_of(t@)[j]) by {
                    assert(ls@.map_values(|l: String| l@)[j] == ls@[j]@);
                }
            }
            r
        },
        Err(e) => {
            let mut r: Vec<Result<String, Error>> = Vec::new();
            r.push(Err(e));
            r
        },
    }
}

/// The first line of a file read whole. Empty content has no first line: that
/// is the missing-line error, never an I/O failure.
pub fn first_line_of(content: Result<String, Error>) -> (r: Result<String, Error>)
    ensures
        match content {
            Ok(t) => if lines_of(t@).len() == 0 {
                r matches Err(Error::MissingEntity { name }) && name@ == "line"@
            } else {
                r matches Ok(l) && l@ == lines_of(t@)[0]
            },
            Err(e) => r matches Err(x) && x == e,
        },
        content matches Ok(t) && t@.len() == 0 ==> r matches Err(Error::MissingEntity { .. }),
{
    let ghost c = content;
    let mut items = content_lines(content);
    proof {
        if let Ok(t) = c {
            lemma_no_lines_iff_empty(t@);
        }
    }
    if items.len() == 0 {
        first_line(None)
    } else {
        let first = items.swap_remove(0);
        first_line(Some(first))
    }
}

/// `r` is the text that the bytes `read` encode as UTF-8, or the failure on
/// `path`: the read's own, or invalid data when the bytes are not UTF-8.
pub open spec fn text_result(path: Seq<char>, read: Result<Vec<u8>, IoKind>, r: Result<String, Error>) -> bool {
    match read {
        Ok(b) => if valid_utf8(b@) {
            r matches Ok(t) && t@ == decode_utf8(b@)
        } else {
            r matches Err(Error::Io { kind: IoKind::InvalidData, path: p }) && p@ == path
        },
        Err(kind) => r matches Err(Error::Io { kind: k, path: p }) && k == kind && p@ == path,
    }
}

/// Relies on `String::from_utf8`: the bytes are taken as they are when they
/// are valid UTF-8, and refused otherwise.
#[verifier::external_body]
fn string_from_utf8(bytes: Vec<u8>) -> (r: Option<String>)
    ensures
        r is Some <==> valid_utf8(bytes@),
        r matches Some(s) ==> s@ == decode_utf8(bytes@),
{
    String::from_utf8(bytes).ok()
}

/// The text of a file from its bytes: bytes that are not valid UTF-8 are an
/// invalid-data failure on `path`, never replaced.
pub fn text_from_bytes(path: &str, read: Result<Vec<u8>, IoKind>) -> (r: Result<String, Error>)
    ensures
        text_result(path@, read, r),
{
    match read {
        Ok(bytes) => match string_from_utf8(bytes) {
            Some(t) => Ok(t),
            None => Err(Error::io(IoKind::InvalidData, path)),
        },
        Err(kind) => Err(Error::io(kind, path)),
    }
}

/// A path that the operating system reports missing does not exist, and
/// reading its text fails with a not-found error that carries the path.
pub proof fn lemma_missing_path<T>(
    path: Seq<char>,
    probe: Result<T, IoKind>,
    read: Result<Vec<u8>, IoKind>,
    out: Result<String, Error>,
)
    requires
        probe matches Err(IoKind::NotFound),
        read matches Err(IoKind::NotFound),
        text_result(path, read, out),
    ensures
        !exists_of(probe),
        out matches Err(Error::Io { kind: IoKind::NotFound, path: p }) && p@ == path,
{
}

/// Attaches `path` to the failure of parsing its content.
pub fn parsed_with_path<R>(path: &str, parsed: Result<R, String>) -> (r: Result<R, Error>)
    ensures
        match parsed {
            Ok(v) => r matches Ok(w) && w == v,
            Err(m) => r matches Err(Error::Parse { path: p, message }) && p@ == path@ && message
                == m,
        },
{
    match parsed {
        Ok(v) => Ok(v),
        Err(message) => Err(Error::Parse { path: path.to_owned(), message }),
    }
}

} // verus!
