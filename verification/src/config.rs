use vstd::prelude::*;
use vstd::string::*;

verus! {

/// Shapes the connection URLs of the two stores. The file paths themselves
/// come from the host environment; only the URL shaping is logic.
pub struct Config {}

impl Config {
    /// The sqlite connection URL for a database file path.
    pub fn sqlite_url(path: &str) -> (r: String)
        ensures
            r@ == "sqlite:"@ + path@,
    {
        let mut r = String::from_str("sqlite:");
        r.append(path);
        r
    }
}

/// The file path inside a sqlite connection URL: the URL with its scheme
/// prefix removed, or the URL unchanged when it carries none.
pub open spec fn spec_sqlite_file_path(url: Seq<char>) -> Seq<char> {
    if "sqlite:"@.is_prefix_of(url) {
        url.skip(7)
    } else {
        url
    }
}

/// Strip the sqlite scheme prefix off a connection URL, recovering the file
/// path the URL points at; a URL without the prefix is returned unchanged.
pub fn sqlite_file_path(url: &str) -> (r: String)
    ensures
        r@ == spec_sqlite_file_path(url@),
{
    proof {
        reveal_strlit("sqlite:");
    }
    let n = url.unicode_len();
    if n < 7 {
        return url.to_owned();
    }
    let head = url.substring_char(0, 7);
    let scheme = String::from_str("sqlite:");
    if head.to_owned() == scheme {
        proof {
            assert("sqlite:"@.is_prefix_of(url@));
        }
        let tail = url.substring_char(7, n);
        tail.to_owned()
    } else {
        proof {
            assert(url@.subrange(0, 7) != "sqlite:"@);
        }
        url.to_owned()
    }
}

/// Shaping a path into a sqlite URL and taking the file path back out
/// returns the original path.
pub proof fn lemma_sqlite_url_roundtrip(path: Seq<char>)
    ensures
        spec_sqlite_file_path("sqlite:"@ + path) == path,
{
    reveal_strlit("sqlite:");
    assert(("sqlite:"@ + path).subrange(0, 7) =~= "sqlite:"@);
    assert(("sqlite:"@ + path).skip(7) =~= path);
}

} // verus!
