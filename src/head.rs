use vstd::prelude::*;
use vstd::string::StringExecFns;
use crate::status::HttpStatus;
use crate::text::{decimal, decimal_string};

verus! {

/// The protocol version that every response carries.
pub const HTTP_VERSION: &'static str = "HTTP/1.1";

/// The status line and the ordered header fields of a response.
pub struct ResponseHead {
    pub version: String,
    pub status: HttpStatus,
    pub headers: Vec<(String, String)>,
}

/// Header fields as pairs of character sequences.
pub open spec fn fields_view(hs: Seq<(String, String)>) -> Seq<(Seq<char>, Seq<char>)> {
    hs.map_values(|p: (String, String)| (p.0@, p.1@))
}

/// One `name: value` line per field, in order, each ended by CRLF.
pub open spec fn header_lines(fields: Seq<(Seq<char>, Seq<char>)>) -> Seq<char>
    decreases fields.len(),
{
    if fields.len() == 0 {
        seq![]
    } else {
        header_lines(fields.drop_last()) + fields.last().0 + ": "@ + fields.last().1 + "\r\n"@
    }
}

/// `<version> <code> <reason>` ended by CRLF.
pub open spec fn status_line(version: Seq<char>, status: HttpStatus) -> Seq<char> {
    version + " "@ + decimal(status.spec_code() as nat) + " "@ + status.spec_reason() + "\r\n"@
}

/// The whole head as it goes on the wire: status line, header lines, and one empty line.
pub open spec fn head_text(
    version: Seq<char>,
    status: HttpStatus,
    fields: Seq<(Seq<char>, Seq<char>)>,
) -> Seq<char> {
    status_line(version, status) + header_lines(fields) + "\r\n"@
}

impl ResponseHead {
    pub open spec fn spec_text(&self) -> Seq<char> {
        head_text(self.version@, self.status, fields_view(self.headers@))
    }

    /// Renders the head in its wire form.
    pub fn serialize(&self) -> (r: String)
        ensures
            r@ == self.spec_text(),
    {
        let mut s = self.version.clone();
        s.append(" ");
        let code = decimal_string(self.status.code() as u64);
        s.append(code.as_str());
        s.append(" ");
        let reason = self.status.string();
        s.append(reason.as_str());
        s.append("\r\n");
        let ghost fields = fields_view(self.headers@);
        let mut i: usize = 0;
        while i < self.headers.len()
            invariant
                0 <= i <= self.headers@.len(),
                fields == fields_view(self.headers@),
                s@ == status_line(self.version@, self.status) + header_lines(fields.take(i as int)),
            decreases self.headers@.len() - i,
        {
            assert(fields.take(i + 1).drop_last() == fields.take(i as int));
            s.append(self.headers[i].0.as_str());
            s.append(": ");
            s.append(self.headers[i].1.as_str());
            s.append("\r\n");
            i = i + 1;
        }
        assert(fields.take(i as int) == fields);
        s.append("\r\n");
        s
    }
}

} // verus!
