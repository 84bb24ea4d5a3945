//! Classification and rewriting of upstream repository URLs.

use vstd::prelude::*;
use vstd::string::*;

verus! {

/// The view of `"https://github.com/"`, the prefix every eligible URL
/// starts with. Its length is 19.
pub open spec fn github_prefix() -> Seq<char> {
    "https://github.com/"@
}

/// `u` matches `^https://github.com/[^/]+/[^/]+` with the slash separating
/// owner and repository at index `k`: the prefix fills indices `0..19`, the
/// owner segment fills `19..k` and is non-empty and slash-free, and a
/// non-slash character follows at `k + 1`.
pub open spec fn eligible_at(u: Seq<char>, k: int) -> bool {
    &&& 20 <= k
    &&& k + 1 < u.len()
    &&& u.subrange(0, 19) == github_prefix()
    &&& (forall|i: int| 19 <= i < k ==> u[i] != '/')
    &&& u[k] == '/'
    &&& u[k + 1] != '/'
}

/// A repository URL is eligible for cloning iff it is hosted on the
/// whitelisted provider: iff it matches `^https://github.com/[^/]+/[^/]+`.
pub open spec fn is_eligible(u: Seq<char>) -> bool {
    exists|k: int| eligible_at(u, k)
}

/// Classify an upstream repository URL: true iff it is an `https` URL on
/// host `github.com` whose path starts with non-empty owner and repository
/// segments, i.e. iff it matches `^https://github.com/[^/]+/[^/]+`.
pub fn is_github_url(url: &str) -> (r: bool)
    ensures
        r == is_eligible(url@),
{
    proof {
        reveal_strlit("https://github.com/");
    }
    let prefix = "https://github.com/";
    let n = url.unicode_len();
    if n < 22 {
        // An eligible URL holds at least the 19-character prefix, one owner
        // character, the slash, and one repository character.
        return false;
    }

    let mut i: usize = 0;
    while i < 19
        invariant
            n == url@.len(),
            22 <= n,
            i <= 19,
            prefix@ == github_prefix(),
            github_prefix().len() == 19,
            forall|j: int| 0 <= j < i ==> url@[j] == github_prefix()[j],
        decreases 19 - i,
    {
        if url.get_char(i) != prefix.get_char(i) {
            proof {
                assert forall|k: int| !eligible_at(url@, k) by {
                    if url@.subrange(0, 19) == github_prefix() {
                        assert(url@.subrange(0, 19)[i as int] == url@[i as int]);
                    }
                }
            }
            return false;
        }
        i += 1;
    }
    proof {
        assert(url@.subrange(0, 19) =~= github_prefix());
    }

    let mut k: usize = 19;
    while k < n && url.get_char(k) != '/'
        invariant
            n == url@.len(),
            22 <= n,
            19 <= k <= n,
            url@.subrange(0, 19) == github_prefix(),
            forall|j: int| 19 <= j < k ==> url@[j] != '/',
        decreases n - k,
    {
        k += 1;
    }

    if k == n {
        // No slash after the prefix: no owner/repository split exists.
        return false;
    }
    if k == 19 {
        // The owner segment is empty.
        return false;
    }
    if k + 1 == n || url.get_char(k + 1) == '/' {
        // `k` is the first slash after the prefix, so it is the only
        // candidate split, and the repository segment is empty there.
        proof {
            assert forall|k2: int| !eligible_at(url@, k2) by {
                if eligible_at(url@, k2) {
                    if k2 < k {
                        assert(url@[k2] != '/');
                    } else if k2 > k {
                        assert(url@[k as int] != '/');
                    }
                    assert(k2 == k);
                }
            }
        }
        return false;
    }
    proof {
        assert(eligible_at(url@, k as int));
    }
    true
}

/// What remains of `u` after its last `'/'`; all of `u` when it has none.
/// The local directory a repository is cloned into is named this way.
pub open spec fn last_segment_of(u: Seq<char>) -> Seq<char>
    decreases u.len(),
{
    if u.len() == 0 {
        u
    } else if u[u.len() - 1] == '/' {
        Seq::empty()
    } else {
        last_segment_of(u.drop_last()).push(u[u.len() - 1])
    }
}

proof fn lemma_last_segment_no_slash(u: Seq<char>)
    requires
        forall|i: int| 0 <= i < u.len() ==> u[i] != '/',
    ensures
        last_segment_of(u) == u,
    decreases u.len(),
{
    if u.len() > 0 {
        lemma_last_segment_no_slash(u.drop_last());
        assert(last_segment_of(u.drop_last()).push(u[u.len() - 1]) =~= u);
    }
}

proof fn lemma_last_segment_after_slash(u: Seq<char>, k: int)
    requires
        0 <= k < u.len(),
        u[k] == '/',
        forall|i: int| k < i < u.len() ==> u[i] != '/',
    ensures
        last_segment_of(u) == u.subrange(k + 1, u.len() as int),
    decreases u.len(),
{
    if k == u.len() - 1 {
        assert(last_segment_of(u) =~= u.subrange(k + 1, u.len() as int));
    } else {
        lemma_last_segment_after_slash(u.drop_last(), k);
        assert(u.drop_last().subrange(k + 1, u.len() - 1).push(u[u.len() - 1]) =~= u.subrange(
            k + 1,
            u.len() as int,
        ));
    }
}

/// The substring after the last `'/'` of `url`, or all of `url` when it has
/// no slash: the name of the local directory the repository lands in.
pub fn last_segment(url: &str) -> (r: String)
    ensures
        r@ == last_segment_of(url@),
{
    let n = url.unicode_len();
    let mut k: usize = n;
    while k > 0
        invariant
            n == url@.len(),
            k <= n,
            forall|i: int| k <= i < n ==> url@[i] != '/',
        decreases k,
    {
        if url.get_char(k - 1) == '/' {
            let seg = url.substring_char(k, n);
            proof {
                lemma_last_segment_after_slash(url@, k - 1);
            }
            return seg.to_owned();
        }
        k -= 1;
    }
    proof {
        lemma_last_segment_no_slash(url@);
    }
    url.to_owned()
}

/// The argument handed to the version-control client: the URL with `.git`
/// appended.
pub fn clone_argument(url: &str) -> (r: String)
    ensures
        r@ == url@ + ".git"@,
{
    let mut s = url.to_owned();
    s.append(".git");
    s
}

/// The registry metadata endpoint for one dependency name.
pub fn api_url(name: &str) -> (r: String)
    ensures
        r@ == "https://crates.io/api/v1/crates/"@ + name@,
{
    let mut s = "https://crates.io/api/v1/crates/".to_owned();
    s.append(name);
    s
}

} // verus!
