//! Removing the mount prefix from a request's path before it is forwarded.
use std::sync::Arc;
use vstd::prelude::*;

use crate::config::Config;
use crate::text::{strip_prefix, strip_prefix_of};

verus! {

/// The backend-facing path and query: `path_and_query` without the leading
/// `prefix`, or unchanged where it does not start with it. Where nothing of
/// the path is left (the rest is empty or starts with the query), the path is
/// the root `/` and the query follows it as it was.
pub open spec fn rewritten_path(path_and_query: Seq<char>, prefix: Seq<char>) -> Seq<char> {
    match strip_prefix_of(path_and_query, prefix) {
        Some(rest) => if rest.len() == 0 || rest[0] == '?' {
            seq!['/'] + rest
        } else {
            rest
        },
        None => path_and_query,
    }
}

/// Strips `prefix` from `path_and_query`; the flag is set where the path did
/// not start with it and was passed through unchanged, which deserves a warning.
pub fn rewrite_path(path_and_query: &str, prefix: &str) -> (r: (String, bool))
    ensures
        r.0@ == rewritten_path(path_and_query@, prefix@),
        r.1 == (strip_prefix_of(path_and_query@, prefix@) is None),
{
    match strip_prefix(path_and_query, prefix) {
        Some(rest) => {
            if rest.unicode_len() == 0 || rest.as_str().get_char(0) == '?' {
                let mut rooted = String::new();
                rooted.append("/");
                proof {
                    reveal_strlit("/");
                }
                rooted.append(rest.as_str());
                assert(rooted@ =~= seq!['/'] + rest@);
                (rooted, false)
            } else {
                (rest, false)
            }
        },
        None => (path_and_query.to_owned(), true),
    }
}

/// A service layer that rewrites each request's path before passing it on.
pub struct PathRewriter<S> {
    pub inner: S,
    pub config: Arc<Config>,
}

impl<S> PathRewriter<S> {
    pub fn new(inner: S, config: Arc<Config>) -> (r: Self)
        ensures
            r.inner == inner,
            r.config == config,
    {
        PathRewriter { inner, config }
    }

    /// The path and query to send on, and whether the configured prefix was
    /// missing from it.
    pub fn rewrite(&self, path_and_query: &str) -> (r: (String, bool))
        ensures
            r.0@ == rewritten_path(path_and_query@, self.config.subpath@),
            r.1 == (strip_prefix_of(path_and_query@, self.config.subpath@) is None),
    {
        rewrite_path(path_and_query, self.config.subpath.as_str())
    }
}

} // verus!
