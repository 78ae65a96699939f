use vstd::prelude::*;
use crate::head::fields_view;

verus! {

/// The server's settings, read once at start-up and never changed after.
pub struct Config {
    pub host: String,
    pub port: u16,
    /// The document served for a path that ends in `/`.
    pub home_page: String,
    /// The directory that request paths are taken relative to.
    pub root_dir: String,
    /// Status code (as text) to the path of its error page, relative to `root_dir`.
    /// A mapping: a well-formed configuration holds each code once (see `wf`).
    pub error_pages: Vec<(String, String)>,
}

/// No key stands in two entries.
pub open spec fn keys_unique(entries: Seq<(Seq<char>, Seq<char>)>) -> bool {
    forall|i: int, j: int| 0 <= i < j < entries.len() ==> entries[i].0 != entries[j].0
}

/// Where keys are unique, an entry's key looks up that entry's value.
pub proof fn lemma_lookup_finds_entry(entries: Seq<(Seq<char>, Seq<char>)>, i: int)
    requires
        keys_unique(entries),
        0 <= i < entries.len(),
    ensures
        lookup(entries, entries[i].0) == Some(entries[i].1),
    decreases entries.len(),
{
    if i > 0 {
        let rest = entries.drop_first();
        assert(entries[0].0 != entries[i].0);
        assert(rest[i - 1] == entries[i]);
        assert(keys_unique(rest)) by {
            assert forall|a: int, b: int| 0 <= a < b < rest.len() implies rest[a].0 != rest[b].0 by {
                assert(rest[a] == entries[a + 1] && rest[b] == entries[b + 1]);
            }
        }
        lemma_lookup_finds_entry(rest, i - 1);
    }
}

/// The value of the first entry of `entries` whose key is `key`.
pub open spec fn lookup(entries: Seq<(Seq<char>, Seq<char>)>, key: Seq<char>) -> Option<Seq<char>>
    decreases entries.len(),
{
    if entries.len() == 0 {
        None
    } else if entries[0].0 == key {
        Some(entries[0].1)
    } else {
        lookup(entries.drop_first(), key)
    }
}

impl Config {
    /// Each status code has at most one error page.
    pub open spec fn wf(&self) -> bool {
        keys_unique(fields_view(self.error_pages@))
    }

    /// The configured error page for `code`, if any.
    pub open spec fn spec_error_page(&self, code: Seq<char>) -> Option<Seq<char>> {
        lookup(fields_view(self.error_pages@), code)
    }

    /// The relative path of the error page configured for `code`.
    pub fn error_page(&self, code: &str) -> (r: Option<String>)
        ensures
            match r {
                Some(p) => self.spec_error_page(code@) == Some(p@),
                None => self.spec_error_page(code@) is None,
            },
    {
        let key = code.to_string();
        let ghost entries = fields_view(self.error_pages@);
        let mut i: usize = 0;
        assert(entries.skip(0) =~= entries);
        while i < self.error_pages.len()
            invariant
                0 <= i <= self.error_pages@.len(),
                key@ == code@,
                entries == fields_view(self.error_pages@),
                lookup(entries.skip(i as int), code@) == lookup(entries, code@),
            decreases self.error_pages@.len() - i,
        {
            assert(entries.skip(i as int).drop_first() =~= entries.skip(i + 1));
            if self.error_pages[i].0 == key {
                return Some(self.error_pages[i].1.clone());
            }
            i = i + 1;
        }
        None
    }
}

} // verus!
