use vstd::prelude::*;
use crate::head::fields_view;
use crate::text::{split_at_colon, split_whitespace, whitespace_tokens};

verus! {

/// Where the parser stands in a request: it moves forward only.
#[derive(Debug, Clone, Copy, PartialEq, Eq, Structural)]
pub enum ReadState {
    RequestLine,
    Headers,
    Done,
}

/// What the parser makes of one line.
#[derive(Debug, Clone, Copy, PartialEq, Eq, Structural)]
pub enum LineOutcome {
    /// The line was taken; more lines are expected.
    Continue,
    /// The empty line ended the head: the request is complete.
    Complete,
    /// The request line does not have exactly three tokens.
    InvalidRequestLine,
    /// A header line has no colon.
    InvalidHeader,
    /// A line arrived after the request was complete.
    NotImplemented,
}

/// A request as far as it has been read.
pub struct Request {
    pub state: ReadState,
    pub method: Option<String>,
    pub path: Option<String>,
    pub version: Option<String>,
    pub headers: Vec<(String, String)>,
}

/// `line` is `name`, a colon, then `value`, where `name` holds no colon:
/// `name` is what stands before the first colon and `value` all that follows it.
pub open spec fn splits_at_first_colon(line: Seq<char>, name: Seq<char>, value: Seq<char>) -> bool {
    line == name + seq![':'] + value && !name.contains(':')
}

/// A header line splits in at most one way: its name is everything before the
/// first colon and its value everything after that colon, further colons included.
pub proof fn lemma_header_split_unique(
    line: Seq<char>,
    name1: Seq<char>,
    value1: Seq<char>,
    name2: Seq<char>,
    value2: Seq<char>,
)
    requires
        splits_at_first_colon(line, name1, value1),
        splits_at_first_colon(line, name2, value2),
    ensures
        name1 == name2,
        value1 == value2,
{
    if name1.len() < name2.len() {
        assert(line[name1.len() as int] == ':');
        assert(name2[name1.len() as int] == ':');
        assert(name2.contains(':'));
    } else if name2.len() < name1.len() {
        assert(line[name2.len() as int] == ':');
        assert(name1[name2.len() as int] == ':');
        assert(name1.contains(':'));
    }
    assert(name1 =~= line.take(name1.len() as int));
    assert(name2 =~= line.take(name2.len() as int));
    assert(value1 =~= line.skip(name1.len() as int + 1));
    assert(value2 =~= line.skip(name2.len() as int + 1));
}

/// The text of an optional string.
pub open spec fn opt_view(o: Option<String>) -> Option<Seq<char>> {
    match o {
        Some(s) => Some(s@),
        None => None,
    }
}

impl Request {
    /// Nothing read yet.
    pub fn new() -> (r: Request)
        ensures
            r.state == ReadState::RequestLine,
            r.method is None,
            r.path is None,
            r.version is None,
            r.headers@.len() == 0,
    {
        Request { state: ReadState::RequestLine, method: None, path: None, version: None, headers: Vec::new() }
    }

    /// The same request: state, request line and header fields.
    pub open spec fn same_as(self, other: Request) -> bool {
        &&& self.state == other.state
        &&& opt_view(self.method) == opt_view(other.method)
        &&& opt_view(self.path) == opt_view(other.path)
        &&& opt_view(self.version) == opt_view(other.version)
        &&& fields_view(self.headers@) == fields_view(other.headers@)
    }

    /// Takes the whitespace-separated tokens of a request line: exactly three make
    /// the method, the target and the version, and the request moves on to its
    /// headers; any other count is refused and changes nothing.
    pub fn take_request_line(&mut self, tokens: Vec<String>) -> (r: LineOutcome)
        requires
            old(self).state == ReadState::RequestLine,
        ensures
            if tokens@.len() == 3 {
                &&& r == LineOutcome::Continue
                &&& final(self).state == ReadState::Headers
                &&& opt_view(final(self).method) == Some(tokens@[0]@)
                &&& opt_view(final(self).path) == Some(tokens@[1]@)
                &&& opt_view(final(self).version) == Some(tokens@[2]@)
                &&& fields_view(final(self).headers@) == fields_view(old(self).headers@)
            } else {
                r == LineOutcome::InvalidRequestLine && final(self).same_as(*old(self))
            },
    {
        let mut parts = tokens;
        if parts.len() != 3 {
            return LineOutcome::InvalidRequestLine;
        }
        let version = parts.pop().unwrap();
        let path = parts.pop().unwrap();
        let method = parts.pop().unwrap();
        self.method = Some(method);
        self.path = Some(path);
        self.version = Some(version);
        self.state = ReadState::Headers;
        LineOutcome::Continue
    }

    /// Takes one line of the request, without its line ending.
    pub fn feed_line(&mut self, line: &str) -> (r: LineOutcome)
        ensures
            match old(self).state {
                ReadState::RequestLine => {
                    let tokens = whitespace_tokens(line@);
                    if tokens.len() == 3 {
                        &&& r == LineOutcome::Continue
                        &&& final(self).state == ReadState::Headers
                        &&& opt_view(final(self).method) == Some(tokens[0])
                        &&& opt_view(final(self).path) == Some(tokens[1])
                        &&& opt_view(final(self).version) == Some(tokens[2])
                        &&& fields_view(final(self).headers@) == fields_view(old(self).headers@)
                    } else {
                        r == LineOutcome::InvalidRequestLine && final(self).same_as(*old(self))
                    }
                },
                ReadState::Headers => {
                    if line@.len() == 0 {
                        &&& r == LineOutcome::Complete
                        &&& final(self).state == ReadState::Done
                        &&& opt_view(final(self).method) == opt_view(old(self).method)
                        &&& opt_view(final(self).path) == opt_view(old(self).path)
                        &&& opt_view(final(self).version) == opt_view(old(self).version)
                        &&& fields_view(final(self).headers@) == fields_view(old(self).headers@)
                    } else if !line@.contains(':') {
                        r == LineOutcome::InvalidHeader && final(self).same_as(*old(self))
                    } else {
                        &&& r == LineOutcome::Continue
                        &&& final(self).state == ReadState::Headers
                        &&& opt_view(final(self).method) == opt_view(old(self).method)
                        &&& opt_view(final(self).path) == opt_view(old(self).path)
                        &&& opt_view(final(self).version) == opt_view(old(self).version)
                        &&& fields_view(final(self).headers@).len() == old(self).headers@.len() + 1
                        &&& fields_view(final(self).headers@).drop_last() == fields_view(old(self).headers@)
                        &&& splits_at_first_colon(
                            line@,
                            fields_view(final(self).headers@).last().0,
                            fields_view(final(self).headers@).last().1,
                        )
                    }
                },
                ReadState::Done => r == LineOutcome::NotImplemented && final(self).same_as(*old(self)),
            },
    {
        match self.state {
            ReadState::RequestLine => self.take_request_line(split_whitespace(line)),
            ReadState::Headers => {
                if line.is_empty() {
                    self.state = ReadState::Done;
                    return LineOutcome::Complete;
                }
                let split = split_at_colon(line);
                if split.is_none() {
                    return LineOutcome::InvalidHeader;
                }
                let parts = split.unwrap();
                assert(line@[parts.0@.len() as int] == ':');
                let ghost before = self.headers@;
                self.headers.push(parts);
                proof {
                    assert(fields_view(self.headers@).drop_last() =~= fields_view(before));
                    assert(fields_view(self.headers@).last() == (parts.0@, parts.1@));
                }
                LineOutcome::Continue
            },
            ReadState::Done => LineOutcome::NotImplemented,
        }
    }
}

} // verus!
