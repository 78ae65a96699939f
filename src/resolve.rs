use vstd::prelude::*;
use vstd::string::StringExecFns;
use vstd::utf8::encode_utf8;
use crate::config::Config;
use crate::proxy::{content_fields, Proxy, TextProxy};
use crate::status::HttpStatus;
use crate::text::{ends_with, has_suffix};

verus! {

/// The body served when neither the requested file nor the error page can be opened.
pub const NOT_FOUND_TEXT: &'static str = "404 Not Found";

/// The file path that `target` names: the home page is appended once where the
/// target ends in `/`, and the result is taken under the root directory.
pub open spec fn spec_resolve(root_dir: Seq<char>, home_page: Seq<char>, target: Seq<char>) -> Seq<char> {
    if has_suffix(target, "/"@) {
        root_dir + target + home_page
    } else {
        root_dir + target
    }
}

/// The file path that a request for `target` is served from.
pub fn resolve_path(config: &Config, target: &str) -> (r: String)
    ensures
        r@ == spec_resolve(config.root_dir@, config.home_page@, target@),
{
    let mut path = config.root_dir.clone();
    path.append(target);
    if ends_with(target, "/") {
        path.append(config.home_page.as_str());
    }
    path
}

/// Where the content of a response comes from next.
pub enum SourceChoice {
    /// Open the file at `path` and serve it with `status`.
    OpenFile { path: String, status: HttpStatus },
    /// Serve this text; it cannot fail.
    Literal(TextProxy),
}

/// The text source of last resort: the not-found message with status 404.
pub fn not_found_text() -> (r: TextProxy)
    ensures
        r.inv(),
        r.infallible(),
        r.unread() == encode_utf8(NOT_FOUND_TEXT@),
        r.status() == HttpStatus::NotFound,
        r.fields() == content_fields(encode_utf8(NOT_FOUND_TEXT@).len(), "text/plain"@),
{
    TextProxy::new(&NOT_FOUND_TEXT.to_string(), HttpStatus::NotFound)
}

/// The step of the fallback chain that follows `failures` failed attempts to open a file
/// for `target`: the requested file with 200 first, then the configured 404 page with 404,
/// then the not-found text.
pub fn next_source(config: &Config, target: &str, failures: usize) -> (r: SourceChoice)
    ensures
        match r {
            SourceChoice::OpenFile { path, status } => if failures == 0 {
                path@ == spec_resolve(config.root_dir@, config.home_page@, target@) && status
                    == HttpStatus::OK
            } else {
                &&& failures == 1
                &&& config.spec_error_page("404"@) is Some
                &&& path@ == config.root_dir@ + config.spec_error_page("404"@).unwrap()
                &&& status == HttpStatus::NotFound
            },
            SourceChoice::Literal(p) => {
                &&& failures >= 2 || (failures == 1 && config.spec_error_page("404"@) is None)
                &&& p.inv()
                &&& p.infallible()
                &&& p.unread() == encode_utf8(NOT_FOUND_TEXT@)
                &&& p.status() == HttpStatus::NotFound
                &&& p.fields() == content_fields(encode_utf8(NOT_FOUND_TEXT@).len(), "text/plain"@)
            },
        },
{
    if failures == 0 {
        return SourceChoice::OpenFile { path: resolve_path(config, target), status: HttpStatus::OK };
    }
    if failures == 1 {
        match config.error_page("404") {
            Some(page) => {
                let mut path = config.root_dir.clone();
                path.append(page.as_str());
                return SourceChoice::OpenFile { path, status: HttpStatus::NotFound };
            },
            None => {},
        }
    }
    SourceChoice::Literal(not_found_text())
}

} // verus!
