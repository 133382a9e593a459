//! Where the service keeps its state on disk.

use vstd::prelude::*;
use vstd::string::StringExecFns;

verus! {

/// The directory that holds one repository per document.
#[allow(non_snake_case)]
pub fn FILES_DIR() -> (dir: String)
    ensures
        dir@ == "./files"@,
{
    String::from_str("./files")
}

/// The directory that holds the rendered previews, one directory per document.
#[allow(non_snake_case)]
pub fn PREVIEWS_DIR() -> (dir: String)
    ensures
        dir@ == "./previews"@,
{
    String::from_str("./previews")
}

/// The largest request body, in bytes, that is read for a request that
/// carries no document content.
pub const SMALL_BODY_LIMIT: u64 = 4096;

/// The largest request body, in bytes, that is read for a request that
/// carries document content.
pub const BIG_BODY_LIMIT: u64 = 16777216;

/// The status for a request whose body is over the limit.
pub const STATUS_PAYLOAD_TOO_LARGE: u16 = 413;

/// `base` followed by a separator and `name`.
pub open spec fn joined(base: Seq<char>, name: Seq<char>) -> Seq<char> {
    base + seq!['/'] + name
}

/// The path of the entry `name` inside the directory `base`.
pub fn join(base: &str, name: &str) -> (path: String)
    ensures
        path@ == joined(base@, name@),
{
    proof {
        reveal_strlit("/");
        assert("/"@ =~= seq!['/']);
    }
    String::from_str(base).concat("/").concat(name)
}

} // verus!
