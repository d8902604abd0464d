//! Character-level helpers: string equality and bearer-token extraction.

use vstd::prelude::*;

verus! {

/// True exactly when the two strings hold the same characters.
pub fn str_eq(a: &str, b: &str) -> (r: bool)
    ensures
        r == (a@ == b@),
{
    let an = a.unicode_len();
    let bn = b.unicode_len();
    if an != bn {
        return false;
    }
    let mut i: usize = 0;
    while i < an
        invariant
            an == a@.len(),
            an == b@.len(),
            i <= an,
            forall|k: int| 0 <= k < i ==> a@[k] == b@[k],
        decreases an - i,
    {
        let ca = a.get_char(i);
        let cb = b.get_char(i);
        if ca != cb {
            assert(a@[i as int] != b@[i as int]);
            return false;
        }
        i += 1;
    }
    proof {
        assert(a@ =~= b@);
    }
    true
}

/// The least index `i >= from` with `h[i] == ' '`, if any.
pub open spec fn find_space(h: Seq<char>, from: int) -> Option<int>
    decreases h.len() - from,
{
    if from < 0 || from >= h.len() {
        Option::None
    } else if h[from] == ' ' {
        Option::Some(from)
    } else {
        find_space(h, from + 1)
    }
}

/// What `find_space` returns: a space at the index, none before it.
pub proof fn lemma_find_space_props(h: Seq<char>, from: int)
    requires
        0 <= from,
    ensures
        match find_space(h, from) {
            Option::Some(i) => from <= i < h.len() && h[i] == ' ',
            Option::None => forall|k: int| from <= k < h.len() ==> h[k] != ' ',
        },
    decreases h.len() - from,
{
    if from < 0 || from >= h.len() {
    } else if h[from] == ' ' {
    } else {
        lemma_find_space_props(h, from + 1);
    }
}

/// Skipping over characters that are not spaces does not change the result.
proof fn lemma_find_space_skip(h: Seq<char>, from: int, to: int)
    requires
        0 <= from <= to <= h.len(),
        forall|k: int| from <= k < to ==> h[k] != ' ',
    ensures
        find_space(h, from) == find_space(h, to),
    decreases to - from,
{
    if from < to {
        lemma_find_space_skip(h, from + 1, to);
    }
}

/// The bearer token carried by an `Authorization` header value: the header
/// is split on single spaces and the piece after the first space is the
/// token. A value without any space carries no token.
pub open spec fn token_of(h: Seq<char>) -> Option<Seq<char>> {
    match find_space(h, 0) {
        Option::None => Option::None,
        Option::Some(i) => {
            let j = match find_space(h, i + 1) {
                Option::None => h.len() as int,
                Option::Some(j) => j,
            };
            Option::Some(h.subrange(i + 1, j))
        },
    }
}

/// The least space index at or after `from`, if any.
fn find_space_from(s: &str, from: usize) -> (r: Option<usize>)
    requires
        from <= s@.len(),
    ensures
        match r {
            Option::Some(i) => find_space(s@, from as int) == Option::Some(i as int),
            Option::None => find_space(s@, from as int) is None,
        },
{
    let n = s.unicode_len();
    let mut i: usize = from;
    while i < n
        invariant
            n == s@.len(),
            from <= i <= n,
            forall|k: int| from <= k < i ==> s@[k] != ' ',
        decreases n - i,
    {
        let c = s.get_char(i);
        if c == ' ' {
            proof {
                lemma_find_space_skip(s@, from as int, i as int);
            }
            return Option::Some(i);
        }
        i += 1;
    }
    proof {
        lemma_find_space_skip(s@, from as int, n as int);
    }
    Option::None
}

/// Extracts the bearer token from an `Authorization` header value, as
/// `token_of` describes it: the piece between the first space and the
/// second space (or the end). `None` when the value holds no space at all.
pub fn extract_token(header: &str) -> (r: Option<String>)
    ensures
        r.deep_view() == token_of(header@),
{
    let n = header.unicode_len();
    let first = find_space_from(header, 0);
    match first {
        Option::None => Option::None,
        Option::Some(i) => {
            proof {
                lemma_find_space_props(header@, 0);
            }
            let second = find_space_from(header, i + 1);
            let j = match second {
                Option::None => n,
                Option::Some(j) => j,
            };
            proof {
                lemma_find_space_props(header@, i + 1);
            }
            let piece = header.substring_char(i + 1, j);
            Option::Some(String::from_str(piece))
        },
    }
}

} // verus!
