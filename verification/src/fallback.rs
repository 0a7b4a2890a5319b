//! The failed-load fallback chain: a failed page load is first retried
//! through the configured search template (its placeholder token replaced by
//! the failed URL); when that substitute itself fails, the only step left is
//! an unconditional jump to the home location.

use vstd::prelude::*;
use vstd::string::StrSliceExecFns;
use vstd::string::StringExecFns;

verus! {

/// What the dispatcher should do about a failed load.
#[derive(Debug, PartialEq)]
pub enum NextAction {
    /// The fallback itself failed: jump to the home location, nothing else
    /// is left to try.
    GoHome,
    /// Try the carried substitution URL; the caller must remember it as the
    /// new last fallback before the next failure.
    TrySubstitute(String),
}

/// The template's placeholder token `${}` starts at position `i`.
pub open spec fn has_token_at(t: Seq<char>, i: int) -> bool {
    &&& 0 <= i
    &&& i + 3 <= t.len()
    &&& t[i] == '$'
    &&& t[i + 1] == '{'
    &&& t[i + 2] == '}'
}

/// The template holds the placeholder token somewhere.
pub open spec fn has_token(t: Seq<char>) -> bool {
    exists|i: int| has_token_at(t, i)
}

/// Position of the first placeholder token, if any.
pub open spec fn find_token(t: Seq<char>) -> Option<int>
    decreases t.len(),
{
    if t.len() < 3 {
        None
    } else if t[0] == '$' && t[1] == '{' && t[2] == '}' {
        Some(0)
    } else {
        match find_token(t.drop_first()) {
            None => None,
            Some(i) => Some(i + 1),
        }
    }
}

/// `find_token` yields exactly the least token position.
pub proof fn lemma_find_token(t: Seq<char>)
    ensures
        match find_token(t) {
            Some(i) => has_token_at(t, i) && forall|j: int| j < i ==> !has_token_at(t, j),
            None => forall|j: int| !has_token_at(t, j),
        },
    decreases t.len(),
{
    if t.len() < 3 {
    } else if t[0] == '$' && t[1] == '{' && t[2] == '}' {
    } else {
        let rest = t.drop_first();
        lemma_find_token(rest);
        assert forall|j: int| 1 <= j && has_token_at(t, j) implies has_token_at(rest, j - 1) by {
            assert(rest[j - 1] == t[j]);
            assert(rest[j] == t[j + 1]);
            assert(rest[j + 1] == t[j + 2]);
        }
        match find_token(rest) {
            None => {
                assert forall|j: int| !has_token_at(t, j) by {
                    if 1 <= j {
                        assert(!has_token_at(rest, j - 1));
                    }
                }
            },
            Some(i) => {
                assert(t[i + 1] == rest[i]);
                assert(t[i + 2] == rest[i + 1]);
                assert(t[i + 3] == rest[i + 2]);
                assert(has_token_at(t, i + 1));
                assert forall|j: int| j < i + 1 implies !has_token_at(t, j) by {
                    if 1 <= j {
                        assert(!has_token_at(rest, j - 1));
                    }
                }
            },
        }
    }
}

/// The template with its first placeholder token replaced by `u`; a template
/// without the token stays as it is.
pub open spec fn substituted(t: Seq<char>, u: Seq<char>) -> Seq<char> {
    match find_token(t) {
        None => t,
        Some(i) => t.take(i) + u + t.skip(i + 3),
    }
}

/// Position of the first placeholder token of `t`, if any.
fn first_token_index(t: &str) -> (r: Option<usize>)
    ensures
        match r {
            Some(i) => find_token(t@) == Some(i as int),
            None => find_token(t@) is None,
        },
{
    proof {
        lemma_find_token(t@);
    }
    let n = t.unicode_len();
    if n < 3 {
        return None;
    }
    let mut i: usize = 0;
    while i <= n - 3
        invariant
            n == t@.len(),
            3 <= n,
            0 <= i <= n - 2,
            forall|j: int| j < i ==> !has_token_at(t@, j),
            match find_token(t@) {
                Some(k) => has_token_at(t@, k) && forall|j: int| j < k ==> !has_token_at(t@, j),
                None => forall|j: int| !has_token_at(t@, j),
            },
        decreases n - i,
    {
        if t.get_char(i) == '$' && t.get_char(i + 1) == '{' && t.get_char(i + 2) == '}' {
            proof {
                assert(has_token_at(t@, i as int));
            }
            return Some(i);
        }
        proof {
            assert(!has_token_at(t@, i as int));
        }
        i = i + 1;
    }
    proof {
        assert forall|j: int| !has_token_at(t@, j) by {
            if j < i {
            } else {
                assert(j + 3 > t@.len());
            }
        }
    }
    None
}

/// The template with its first placeholder token replaced by `url`.
pub fn substitute(template: &str, url: &str) -> (r: String)
    ensures
        r@ == substituted(template@, url@),
{
    match first_token_index(template) {
        None => template.to_owned(),
        Some(i) => {
            proof {
                lemma_find_token(template@);
            }
            let n = template.unicode_len();
            let pre = template.substring_char(0, i);
            let post = template.substring_char(i + 3, n);
            let mut s = String::from_str(pre);
            s.append(url);
            s.append(post);
            proof {
                assert(template@.subrange(0, i as int) =~= template@.take(i as int));
                assert(template@.subrange(i + 3, n as int) =~= template@.skip(i + 3));
                assert(s@ =~= template@.take(i as int) + url@ + template@.skip(i + 3));
            }
            s
        },
    }
}

/// The fallback rule: when the page that failed is the very substitute that
/// the last failure produced, jump home; otherwise build a fresh substitute
/// from the template.
pub fn resolve(failed_url: &String, template: &String, last_fallback: &String) -> (r: NextAction)
    ensures
        failed_url@ == last_fallback@ <==> r is GoHome,
        failed_url@ != last_fallback@ ==> (r matches NextAction::TrySubstitute(u) && u@
            == substituted(template@, failed_url@)),
{
    if *failed_url == *last_fallback {
        NextAction::GoHome
    } else {
        NextAction::TrySubstitute(substitute(template.as_str(), failed_url.as_str()))
    }
}

/// Law: as long as the template holds the placeholder token, the
/// substitution URL contains the failed URL as a contiguous segment.
pub proof fn lemma_substituted_contains(t: Seq<char>, u: Seq<char>)
    requires
        has_token(t),
    ensures
        exists|k: int|
            0 <= k && k + u.len() <= substituted(t, u).len() && #[trigger] substituted(
                t,
                u,
            ).subrange(k, k + u.len()) == u,
{
    lemma_find_token(t);
    match find_token(t) {
        None => {
            let w = choose|i: int| has_token_at(t, i);
            assert(!has_token_at(t, w));
        },
        Some(i) => {
            let s = substituted(t, u);
            assert(s == t.take(i) + u + t.skip(i + 3));
            assert(s.subrange(i, i + u.len()) =~= u);
        },
    }
}

} // verus!
