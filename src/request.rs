//! A request token `name` or `name@range`.

use vstd::prelude::*;
use crate::error::VendorError;
use crate::text::{count_char, first_index_of};
use crate::version::{range_parses, VersionRange};

verus! {

/// The package name: the text before the first `@`, or all of it.
pub open spec fn request_name(t: Seq<char>) -> Seq<char> {
    match first_index_of(t, '@') {
        Some(i) => t.take(i),
        None => t,
    }
}

/// The range text: what follows the `@` when the token holds exactly one.
/// A token with two or more `@` carries no range, as a bare name would.
pub open spec fn request_range(t: Seq<char>) -> Option<Seq<char>> {
    if count_char(t, '@') == 1 {
        Some(t.skip(first_index_of(t, '@').unwrap() + 1))
    } else {
        None
    }
}

/// A parsed request.
pub struct PackageRequest {
    /// The token as the user wrote it.
    pub token: String,
    /// The package name to look for.
    pub name: String,
    /// The version requirement, when one was given.
    pub range: Option<VersionRange>,
}

proof fn lemma_first_index(t: Seq<char>, k: int)
    requires
        0 <= k < t.len(),
        t[k] == '@',
        forall|j: int| 0 <= j < k ==> t[j] != '@',
    ensures
        first_index_of(t, '@') == Some(k),
{
    let c = choose|i: int| 0 <= i < t.len() && t[i] == '@' && forall|j: int| 0 <= j < i ==> t[j] != '@';
    assert(0 <= c < t.len() && t[c] == '@' && forall|j: int| 0 <= j < c ==> t[j] != '@');
    if c < k {
        assert(t[c] != '@');
    }
    if k < c {
        assert(t[k] != '@');
    }
}

/// Splits a token on `@` and reads the range when there is exactly one `@`.
pub fn parse_request(token: &str) -> (r: Result<PackageRequest, VendorError>)
    ensures
        r is Ok <==> (request_range(token@) matches Some(rt) ==> range_parses(rt)),
        r matches Ok(p) ==> {
            &&& p.token@ == token@
            &&& p.name@ == request_name(token@)
            &&& p.range is Some <==> request_range(token@) is Some
            &&& p.range matches Some(v) ==> Some(v@) == request_range(token@)
        },
        r matches Err(e) ==> e is MalformedRequest,
{
    let n = token.unicode_len();
    let mut count: usize = 0;
    let mut first: Option<usize> = None;
    let mut i: usize = 0;
    while i < n
        invariant
            0 <= i <= n,
            n == token@.len(),
            count == count_char(token@.take(i as int), '@'),
            count <= i,
            first is None ==> forall|j: int| 0 <= j < i ==> token@[j] != '@',
            first matches Some(k) ==> {
                &&& k < i
                &&& token@[k as int] == '@'
                &&& forall|j: int| 0 <= j < k ==> token@[j] != '@'
            },
        decreases n - i,
    {
        proof {
            assert(token@.take(i + 1).drop_last() =~= token@.take(i as int));
        }
        if token.get_char(i) == '@' {
            count = count + 1;
            if first.is_none() {
                first = Some(i);
            }
        }
        i = i + 1;
    }
    proof {
        assert(token@.take(n as int) =~= token@);
    }
    let (name, range) = match first {
        None => {
            proof {
                assert(first_index_of(token@, '@') is None);
            }
            (token.to_string(), None)
        },
        Some(k) => {
            proof {
                lemma_first_index(token@, k as int);
            }
            let name = token.substring_char(0, k).to_string();
            if count == 1 {
                let rest = token.substring_char(k + 1, n);
                match VersionRange::parse(rest) {
                    Ok(v) => (name, Some(v)),
                    Err(e) => {
                        return Err(e);
                    },
                }
            } else {
                (name, None)
            }
        },
    };
    proof {
        if first is None && count > 0 {
            lemma_count_absent(token@);
        }
    }
    Ok(PackageRequest { token: token.to_string(), name, range })
}

proof fn lemma_count_absent(t: Seq<char>)
    requires
        forall|j: int| 0 <= j < t.len() ==> t[j] != '@',
    ensures
        count_char(t, '@') == 0,
    decreases t.len(),
{
    if t.len() > 0 {
        lemma_count_absent(t.drop_last());
    }
}

} // verus!
