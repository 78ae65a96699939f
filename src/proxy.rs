use vstd::prelude::*;
use vstd::math::min;
use vstd::utf8::encode_utf8;
use crate::head::{fields_view, ResponseHead, HTTP_VERSION};
use crate::mime::{spec_from_path, MineType};
use crate::status::HttpStatus;
use crate::text::{decimal, decimal_string};

verus! {

#[verifier::external_type_specification]
#[verifier::external_body]
pub struct ExIoError(std::io::Error);

/// Relies on `std::io::Error::new`: builds the error that a write into a content source returns.
#[verifier::external_body]
fn write_refused() -> (r: std::io::Error) {
    std::io::Error::new(std::io::ErrorKind::Unsupported, "content sources are read-only")
}

/// The header fields of a response whose body is `len` bytes of type `mime`.
pub open spec fn content_fields(len: nat, mime: Seq<char>) -> Seq<(Seq<char>, Seq<char>)> {
    seq![("Content-Length"@, decimal(len)), ("Content-Type"@, mime)]
}

/// A source of response content: a head, then the body bytes in order.
///
/// The spec functions below describe a source for the contracts. Their default
/// bodies are there only so that sources written outside verified code (a file
/// on disk) compile without defining them: the contracts of this trait, and of
/// the functions that take a `Proxy`, describe verified sources only, and say
/// nothing true of such an outside source.
pub trait Proxy: Sized {
    /// Reads and the head of this source never fail.
    open spec fn infallible(&self) -> bool {
        false
    }

    /// The source's own consistency condition.
    open spec fn inv(&self) -> bool {
        true
    }

    /// The body bytes that reads have not handed out yet.
    open spec fn unread(&self) -> Seq<u8> {
        Seq::empty()
    }

    /// The status that the response carries.
    open spec fn status(&self) -> HttpStatus {
        HttpStatus::OK
    }

    /// The header fields that the response carries.
    open spec fn fields(&self) -> Seq<(Seq<char>, Seq<char>)> {
        Seq::empty()
    }

    /// Copies the next bytes of the body into the front of `buf`; `Ok(0)` on a
    /// non-empty buffer means that the body is exhausted. An infallible source
    /// copies as many bytes as both the buffer and the rest of the body hold.
    fn read(&mut self, buf: &mut [u8]) -> (r: Result<usize, std::io::Error>)
        requires
            old(self).inv(),
        ensures
            final(self).inv(),
            final(self).infallible() == old(self).infallible(),
            final(self).status() == old(self).status(),
            final(self).fields() == old(self).fields(),
            final(buf)@.len() == old(buf)@.len(),
            old(self).infallible() ==> (r matches Ok(n) && n == min(
                old(buf)@.len() as int,
                old(self).unread().len() as int,
            ) && final(buf)@.skip(n as int) == old(buf)@.skip(n as int)),
            match r {
                Ok(n) => {
                    &&& n <= old(buf)@.len()
                    &&& n <= old(self).unread().len()
                    &&& (n == 0 ==> old(buf)@.len() == 0 || old(self).unread().len() == 0)
                    &&& final(buf)@.take(n as int) == old(self).unread().take(n as int)
                    &&& final(self).unread() == old(self).unread().skip(n as int)
                },
                Err(_) => true,
            },
    ;

    /// Content sources are read-only: this always fails and changes nothing.
    fn write(&mut self, buf: &[u8]) -> (r: Result<usize, std::io::Error>)
        ensures
            *final(self) == *old(self),
            r is Err,
    ;

    /// The head of the response that this source produces.
    fn get_head(&self) -> (r: Result<ResponseHead, std::io::Error>)
        requires
            self.inv(),
        ensures
            self.infallible() ==> r is Ok,
            match r {
                Ok(h) => {
                    &&& h.version@ == HTTP_VERSION@
                    &&& h.status == self.status()
                    &&& fields_view(h.headers@) == self.fields()
                },
                Err(_) => true,
            },
    ;
}

/// The head of a response that serves `len` bytes of the file at `path` with `status`:
/// its length, and the content type that the path's suffix gives.
pub fn file_head(path: &str, len: u64, status: HttpStatus) -> (r: ResponseHead)
    ensures
        r.version@ == HTTP_VERSION@,
        r.status == status,
        fields_view(r.headers@) == content_fields(len as nat, spec_from_path(path@).spec_name()),
{
    let headers = vec![
        ("Content-Length".to_string(), decimal_string(len)),
        ("Content-Type".to_string(), MineType::from_path(path).to_string()),
    ];
    proof {
        assert(fields_view(headers@) =~= content_fields(len as nat, spec_from_path(path@).spec_name()));
    }
    ResponseHead { version: HTTP_VERSION.to_string(), status, headers }
}

/// A content source over a text held in memory, read forward once.
pub struct TextProxy {
    text: String,
    pointer: usize,
    http_status: HttpStatus,
}

impl TextProxy {
    pub fn new(text: &String, status: HttpStatus) -> (r: TextProxy)
        ensures
            r.inv(),
            r.infallible(),
            r.unread() == encode_utf8(text@),
            r.status() == status,
            r.fields() == content_fields(encode_utf8(text@).len(), "text/plain"@),
    {
        TextProxy { text: text.clone(), pointer: 0, http_status: status }
    }
}

impl Proxy for TextProxy {
    open spec fn infallible(&self) -> bool {
        true
    }

    closed spec fn inv(&self) -> bool {
        self.pointer <= encode_utf8(self.text@).len()
    }

    closed spec fn unread(&self) -> Seq<u8> {
        encode_utf8(self.text@).skip(self.pointer as int)
    }

    closed spec fn status(&self) -> HttpStatus {
        self.http_status
    }

    closed spec fn fields(&self) -> Seq<(Seq<char>, Seq<char>)> {
        content_fields(encode_utf8(self.text@).len(), "text/plain"@)
    }

    fn read(&mut self, buf: &mut [u8]) -> (r: Result<usize, std::io::Error>) {
        let bytes = self.text.as_str().as_bytes();
        let bytes_len = bytes.len();
        let buf_len = buf.len();
        let remaining = bytes_len - self.pointer;
        let to_copy = if remaining < buf_len { remaining } else { buf_len };
        let start = self.pointer;
        let ghost buf0 = buf@;
        let mut i: usize = 0;
        while i < to_copy
            invariant
                i <= to_copy,
                to_copy <= buf_len,
                start + to_copy <= bytes_len,
                bytes@ == encode_utf8(self.text@),
                bytes_len == bytes@.len(),
                buf@.len() == buf_len,
                forall|j: int| 0 <= j < i ==> buf@[j] == bytes@[start + j],
                forall|j: int| i <= j < buf_len ==> buf@[j] == buf0[j],
                buf0.len() == buf_len,
            decreases to_copy - i,
        {
            buf[i] = bytes[start + i];
            i = i + 1;
        }
        self.pointer = start + to_copy;
        proof {
            let old_unread = encode_utf8(self.text@).skip(start as int);
            assert(buf@.take(to_copy as int) =~= old_unread.take(to_copy as int));
            assert(buf@.skip(to_copy as int) =~= buf0.skip(to_copy as int));
            assert(encode_utf8(self.text@).skip(self.pointer as int) =~= old_unread.skip(to_copy as int));
        }
        Ok(to_copy)
    }

    fn write(&mut self, buf: &[u8]) -> (r: Result<usize, std::io::Error>) {
        Err(write_refused())
    }

    fn get_head(&self) -> (r: Result<ResponseHead, std::io::Error>) {
        let text = self.text.as_str();
        let len = text.as_bytes().len();
        let headers = vec![
            ("Content-Length".to_string(), decimal_string(len as u64)),
            ("Content-Type".to_string(), "text/plain".to_string()),
        ];
        proof {
            assert(headers@[0].1@ == decimal(encode_utf8(self.text@).len()));
            assert(fields_view(headers@) =~= self.fields());
        }
        Ok(ResponseHead { version: HTTP_VERSION.to_string(), status: self.http_status, headers })
    }
}

} // verus!
