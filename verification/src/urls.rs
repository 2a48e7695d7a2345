use vstd::prelude::*;

use crate::errors::AppError;
use crate::strings::{spec_starts_with, str_starts_with};

verus! {

/// Index of the first `'/'` in `s`, or `s.len()` if there is none.
pub open spec fn slash_index(s: Seq<char>) -> int
    decreases s.len(),
{
    if s.len() == 0 {
        0
    } else if s[0] == '/' {
        0
    } else {
        1 + slash_index(s.drop_first())
    }
}

/// `slash_index` is pinned down by its characterization: a prefix free of
/// slashes followed by a slash (or by the end of the sequence).
pub proof fn lemma_slash_index_is(s: Seq<char>, k: int)
    requires
        0 <= k <= s.len(),
        forall|j: int| 0 <= j < k ==> s[j] != '/',
        k < s.len() ==> s[k] == '/',
    ensures
        slash_index(s) == k,
    decreases s.len(),
{
    if s.len() == 0 {
    } else if s[0] == '/' {
        assert(k == 0);
    } else {
        assert(k > 0) by {
            if k == 0 {
                assert(s[0] == '/');
            }
        }
        assert forall|j: int| 0 <= j < k - 1 implies s.drop_first()[j] != '/' by {
            assert(s[j + 1] != '/');
        }
        lemma_slash_index_is(s.drop_first(), k - 1);
    }
}

/// Normalization of a target address into a base URL, written out over
/// character sequences.
///
/// An address that names the plain-text scheme is rejected with the input
/// itself. Otherwise the secure scheme is prepended where missing, and the
/// result is the scheme plus everything up to the first `'/'` after it. An
/// address with no path segment after the host is rejected with the
/// normalized form.
pub open spec fn spec_parse_base_url(s: Seq<char>) -> Result<Seq<char>, Seq<char>> {
    if spec_starts_with(s, "http://"@) {
        Err(s)
    } else {
        let t = if spec_starts_with(s, "https://"@) {
            s
        } else {
            "https://"@ + s
        };
        let rest = t.subrange(8, t.len() as int);
        if slash_index(rest) < rest.len() {
            Ok("https://"@ + rest.subrange(0, slash_index(rest)))
        } else {
            Err(t)
        }
    }
}

/// Turns a user-supplied target address into the base URL of the remote
/// host, per `spec_parse_base_url`; rejected addresses come back inside
/// `AppError::InvalidUrl`.
pub fn parse_base_url(url_str: String) -> (r: Result<String, AppError>)
    ensures
        r is Ok <==> spec_parse_base_url(url_str@) is Ok,
        r is Ok ==> r->Ok_0@ == spec_parse_base_url(url_str@)->Ok_0,
        r is Err ==> (r->Err_0 matches AppError::InvalidUrl(u) && u@ == spec_parse_base_url(
            url_str@,
        )->Err_0),
{
    proof {
        reveal_strlit("http://");
        reveal_strlit("https://");
    }
    if str_starts_with(url_str.as_str(), "http://") {
        return Err(AppError::InvalidUrl(url_str));
    }
    let t: String = if str_starts_with(url_str.as_str(), "https://") {
        url_str
    } else {
        String::from_str("https://").concat(url_str.as_str())
    };
    let ghost rest: Seq<char> = t@.subrange(8, t@.len() as int);
    proof {
        if spec_starts_with(url_str@, "https://"@) {
            assert(t@.subrange(0, 8) =~= "https://"@);
        } else {
            assert(t@.subrange(0, 8) =~= "https://"@);
        }
        assert(spec_starts_with(t@, "https://"@));
    }
    let n = t.as_str().unicode_len();
    let mut i: usize = 8;
    while i < n
        invariant
            8 <= i <= n,
            n == t@.len(),
            rest == t@.subrange(8, t@.len() as int),
            t@.subrange(0, 8) == "https://"@,
            !spec_starts_with(url_str@, "http://"@),
            t@ == if spec_starts_with(url_str@, "https://"@) {
                url_str@
            } else {
                "https://"@ + url_str@
            },
            forall|j: int| 0 <= j < i - 8 ==> rest[j] != '/',
        decreases n - i,
    {
        if t.as_str().get_char(i) == '/' {
            proof {
                lemma_slash_index_is(rest, i - 8);
            }
            let base = t.as_str().substring_char(0, i);
            assert(base@ =~= "https://"@ + rest.subrange(0, i - 8));
            return Ok(base.to_owned());
        }
        i += 1;
    }
    proof {
        lemma_slash_index_is(rest, n - 8);
    }
    Err(AppError::InvalidUrl(t))
}

} // verus!
