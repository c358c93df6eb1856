//! How the current branch name is resolved from the version-control query,
//! with the fixed default where the query gives no name.

use crate::text::trim;
use crate::text::trim_text;
use vstd::prelude::*;

verus! {

/// The branch used when the query for the current branch gives no name.
pub open spec fn default_branch() -> Seq<char> {
    "main"@
}

/// The branch a query outcome resolves to: the trimmed output where the query
/// succeeded and the trimmed output is a name, the default where the query
/// failed or yielded only whitespace.
pub open spec fn resolved_branch(query: Option<Seq<char>>) -> Seq<char> {
    match query {
        Some(out) => if trim_text(out).len() > 0 {
            trim_text(out)
        } else {
            default_branch()
        },
        None => default_branch(),
    }
}

/// The branch to push to, resolved from the outcome of the branch query:
/// `None` stands for a query that failed, `Some` carries what it printed.
pub fn resolve_branch(query: &Option<String>) -> (r: String)
    ensures
        r@ == resolved_branch(query.deep_view()),
{
    match query {
        Some(out) => {
            let t = trim(out.as_str());
            if t.is_empty() {
                "main".to_owned()
            } else {
                t.to_owned()
            }
        },
        None => "main".to_owned(),
    }
}

} // verus!
