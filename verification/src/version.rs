//! Release versions: `MAJOR.MINOR[.PATCH]` numbers and the choice of the
//! highest `v`-prefixed version mentioned in a releases Atom feed.
use vstd::prelude::*;
use crate::text::{
    parse_u64_spec, parse_u64_chars, chars_of, string_from_chars,
};

verus! {

/// A parsed version, compared field by field.
pub type VersionKey = (u64, u64, u64);

/// The characters at which a text is cut into pieces.
#[derive(Clone, Copy, PartialEq, Eq, Debug)]
pub enum Separator {
    /// Cut at every `.`.
    Dot,
    /// Cut at every character that is neither ASCII alphanumeric nor `.`.
    NonToken,
}

pub open spec fn is_ascii_alphanumeric(c: char) -> bool {
    let v = c as int;
    ||| 48 <= v && v <= 57
    ||| 65 <= v && v <= 90
    ||| 97 <= v && v <= 122
}

/// Whether `sep` cuts the text at `c`.
pub open spec fn cuts(sep: Separator, c: char) -> bool {
    match sep {
        Separator::Dot => c == '.',
        Separator::NonToken => !(is_ascii_alphanumeric(c) || c == '.'),
    }
}

/// The pieces of `s` between the characters that `sep` cuts at, in order and
/// with the empty ones, as `str::split` yields them. There is always at least one.
pub open spec fn split(s: Seq<char>, sep: Separator) -> Seq<Seq<char>>
    decreases s.len(),
{
    if s.len() == 0 {
        seq![Seq::<char>::empty()]
    } else {
        let init = split(s.drop_last(), sep);
        if cuts(sep, s.last()) {
            init.push(Seq::<char>::empty())
        } else {
            init.update(init.len() - 1, init.last().push(s.last()))
        }
    }
}

/// What `parse_ver` reads from a version text: the first piece between dots
/// as the major number, the second as the minor, the third (or `0` when there
/// is none) as the patch; further pieces are ignored.
pub open spec fn spec_parse_ver(s: Seq<char>) -> Option<VersionKey> {
    let parts = split(s, Separator::Dot);
    let major = parse_u64_spec(parts[0]);
    let minor = if parts.len() >= 2 {
        parse_u64_spec(parts[1])
    } else {
        None
    };
    let patch = if parts.len() >= 3 {
        parse_u64_spec(parts[2])
    } else {
        Some(0u64)
    };
    match (major, minor, patch) {
        (Some(a), Some(b), Some(c)) => Some((a, b, c)),
        _ => None,
    }
}

/// Strict lexicographic order of version keys.
pub open spec fn version_lt(a: VersionKey, b: VersionKey) -> bool {
    ||| a.0 < b.0
    ||| a.0 == b.0 && a.1 < b.1
    ||| a.0 == b.0 && a.1 == b.1 && a.2 < b.2
}

/// A token with every leading `v` removed.
pub open spec fn strip_leading_v(t: Seq<char>) -> Seq<char>
    decreases t.len(),
{
    if t.len() > 0 && t[0] == 'v' {
        strip_leading_v(t.drop_first())
    } else {
        t
    }
}

/// A feed token that names a version: it starts with `v`, and what follows
/// the leading `v`s parses as a version. Gives the key and that version text.
pub open spec fn candidate(t: Seq<char>) -> Option<(VersionKey, Seq<char>)> {
    if t.len() > 0 && t[0] == 'v' {
        let v = strip_leading_v(t);
        match spec_parse_ver(v) {
            Some(k) => Some((k, v)),
            None => None,
        }
    } else {
        None
    }
}

/// The version key of a token that names a version.
pub open spec fn candidate_key(t: Seq<char>) -> VersionKey {
    match candidate(t) {
        Some((k, _)) => k,
        None => (0, 0, 0),
    }
}

/// The version text of a token that names a version.
pub open spec fn candidate_text(t: Seq<char>) -> Seq<char> {
    match candidate(t) {
        Some((_, v)) => v,
        None => Seq::<char>::empty(),
    }
}

/// Token `i` of `ts` is the first one that carries the highest version key.
pub open spec fn is_best_at(ts: Seq<Seq<char>>, i: int) -> bool {
    &&& 0 <= i < ts.len()
    &&& candidate(ts[i]) is Some
    &&& forall|j: int|
        0 <= j < ts.len() && (#[trigger] candidate(ts[j])) is Some ==> !version_lt(
            candidate_key(ts[i]),
            candidate_key(ts[j]),
        )
    &&& forall|j: int|
        0 <= j < i && (#[trigger] candidate(ts[j])) is Some ==> version_lt(
            candidate_key(ts[j]),
            candidate_key(ts[i]),
        )
}

pub proof fn lemma_split_nonempty(s: Seq<char>, sep: Separator)
    ensures
        split(s, sep).len() >= 1,
    decreases s.len(),
{
    if s.len() > 0 {
        lemma_split_nonempty(s.drop_last(), sep);
    }
}

/// At most one token is the first to carry the highest version key, so the
/// choice of `highest_version` is determined by the feed.
pub proof fn lemma_best_unique(ts: Seq<Seq<char>>, i: int, j: int)
    requires
        is_best_at(ts, i),
        is_best_at(ts, j),
    ensures
        i == j,
{
    if i < j {
        assert(candidate(ts[i]) is Some);
    } else if j < i {
        assert(candidate(ts[j]) is Some);
    }
}

/// Versions are ordered major first, then minor, then patch: a larger major
/// wins whatever the minor and patch, an equal major with a larger minor wins
/// whatever the patch, and with both equal the larger patch wins; the order
/// is strict and total on different keys.
pub proof fn lemma_version_order_major_first(a: VersionKey, b: VersionKey)
    ensures
        a.0 < b.0 ==> version_lt(a, b),
        a.0 == b.0 && a.1 < b.1 ==> version_lt(a, b),
        a.0 == b.0 && a.1 == b.1 && a.2 < b.2 ==> version_lt(a, b),
        !version_lt(a, a),
        version_lt(a, b) ==> !version_lt(b, a),
        a != b ==> version_lt(a, b) || version_lt(b, a),
{
}

/// The version `highest_version` picks is at least every version the feed
/// names, in the order major, then minor, then patch: no named version has a
/// larger major; none with the same major has a larger minor; none with the
/// same major and minor has a larger patch.
pub proof fn lemma_best_is_highest(ts: Seq<Seq<char>>, i: int, j: int)
    requires
        is_best_at(ts, i),
        0 <= j < ts.len(),
        candidate(ts[j]) is Some,
    ensures
        ({
            let best = candidate_key(ts[i]);
            let other = candidate_key(ts[j]);
            &&& other.0 <= best.0
            &&& other.0 == best.0 ==> other.1 <= best.1
            &&& other.0 == best.0 && other.1 == best.1 ==> other.2 <= best.2
        }),
{
    let best = candidate_key(ts[i]);
    let other = candidate_key(ts[j]);
    assert(!version_lt(best, other));
    lemma_version_order_major_first(best, other);
}

/// Among tokens carrying the highest version, the first one is picked: every
/// earlier token that names a version names a strictly lower one (major,
/// then minor, then patch).
pub proof fn lemma_best_is_first(ts: Seq<Seq<char>>, i: int, j: int)
    requires
        is_best_at(ts, i),
        0 <= j < i,
        candidate(ts[j]) is Some,
    ensures
        ({
            let best = candidate_key(ts[i]);
            let other = candidate_key(ts[j]);
            ||| other.0 < best.0
            ||| other.0 == best.0 && other.1 < best.1
            ||| other.0 == best.0 && other.1 == best.1 && other.2 < best.2
        }),
{
    let best = candidate_key(ts[i]);
    let other = candidate_key(ts[j]);
    assert(version_lt(other, best));
    lemma_version_order_major_first(other, best);
    lemma_version_order_major_first(best, other);
}

/// The character sequences held by a list of pieces.
pub open spec fn piece_views(parts: Seq<Vec<char>>) -> Seq<Seq<char>> {
    parts.map_values(|p: Vec<char>| p@)
}

pub fn cuts_at(sep: Separator, c: char) -> (b: bool)
    ensures
        b == cuts(sep, c),
{
    match sep {
        Separator::Dot => c == '.',
        Separator::NonToken => {
            let v = c as u32;
            !((48 <= v && v <= 57) || (65 <= v && v <= 90) || (97 <= v && v <= 122) || c == '.')
        },
    }
}

/// `s.split(..)` collected: the pieces between the characters `sep` cuts at.
pub fn split_chars(s: &[char], sep: Separator) -> (parts: Vec<Vec<char>>)
    ensures
        piece_views(parts@) == split(s@, sep),
{
    let n = s.len();
    let mut parts: Vec<Vec<char>> = Vec::new();
    let mut cur: Vec<char> = Vec::new();
    let mut i: usize = 0;
    assert(s@.take(0) == Seq::<char>::empty());
    while i < n
        invariant
            n == s@.len(),
            i <= n,
            split(s@.take(i as int), sep) == piece_views(parts@).push(cur@),
        decreases n - i,
    {
        let c = s[i];
        let ghost before = split(s@.take(i as int), sep);
        assert(s@.take(i + 1).drop_last() == s@.take(i as int));
        assert(s@.take(i + 1).last() == c);
        if cuts_at(sep, c) {
            let ghost old_parts = parts@;
            let ghost old_cur = cur@;
            parts.push(cur);
            cur = Vec::new();
            assert(piece_views(parts@) =~= piece_views(old_parts).push(old_cur));
            assert(piece_views(parts@) == before);
            assert(split(s@.take(i + 1), sep) =~= piece_views(parts@).push(cur@));
        } else {
            cur.push(c);
            assert(piece_views(parts@).push(cur@) == before.update(
                before.len() - 1,
                before.last().push(c),
            ));
        }
        i = i + 1;
    }
    assert(s@.take(n as int) == s@);
    let ghost old_parts = parts@;
    let ghost old_cur = cur@;
    parts.push(cur);
    assert(piece_views(parts@) =~= piece_views(old_parts).push(old_cur));
    parts
}

/// Reads `MAJOR.MINOR[.PATCH]` from characters (see `spec_parse_ver`).
pub fn parse_ver_chars(s: &[char]) -> (r: Option<VersionKey>)
    ensures
        r == spec_parse_ver(s@),
{
    let parts = split_chars(s, Separator::Dot);
    proof {
        lemma_split_nonempty(s@, Separator::Dot);
    }
    assert(parts@[0]@ == piece_views(parts@)[0]);
    let major = match parse_u64_chars(parts[0].as_slice()) {
        Some(a) => a,
        None => return None,
    };
    if parts.len() < 2 {
        return None;
    }
    assert(parts@[1]@ == piece_views(parts@)[1]);
    let minor = match parse_u64_chars(parts[1].as_slice()) {
        Some(b) => b,
        None => return None,
    };
    let patch = if parts.len() >= 3 {
        assert(parts@[2]@ == piece_views(parts@)[2]);
        match parse_u64_chars(parts[2].as_slice()) {
            Some(c) => c,
            None => return None,
        }
    } else {
        0
    };
    Some((major, minor, patch))
}

/// Reads a version `MAJOR.MINOR[.PATCH]`: the text between the first two
/// dots (or the end) as numbers, the patch `0` when it is missing.
pub fn parse_ver(s: &str) -> (r: Option<VersionKey>)
    ensures
        r == spec_parse_ver(s@),
{
    let v = chars_of(s);
    parse_ver_chars(v.as_slice())
}

pub fn version_less(a: VersionKey, b: VersionKey) -> (r: bool)
    ensures
        r == version_lt(a, b),
{
    a.0 < b.0 || (a.0 == b.0 && a.1 < b.1) || (a.0 == b.0 && a.1 == b.1 && a.2 < b.2)
}

/// The version a feed token names, if any (see `candidate`).
pub fn token_candidate(t: &[char]) -> (r: Option<(VersionKey, Vec<char>)>)
    ensures
        match r {
            Some((k, v)) => candidate(t@) == Some((k, v@)),
            None => candidate(t@) is None,
        },
{
    let n = t.len();
    if n == 0 || t[0] != 'v' {
        return None;
    }
    let mut i: usize = 0;
    assert(t@.subrange(0, n as int) == t@);
    while i < n && t[i] == 'v'
        invariant
            n == t@.len(),
            i <= n,
            strip_leading_v(t@) == strip_leading_v(t@.subrange(i as int, n as int)),
        decreases n - i,
    {
        assert(t@.subrange(i as int, n as int).drop_first() == t@.subrange(i + 1, n as int));
        i = i + 1;
    }
    let mut v: Vec<char> = Vec::new();
    let mut j: usize = i;
    while j < n
        invariant
            n == t@.len(),
            i <= j <= n,
            v@ == t@.subrange(i as int, j as int),
        decreases n - j,
    {
        v.push(t[j]);
        j = j + 1;
    }
    assert(v@ == strip_leading_v(t@));
    match parse_ver_chars(v.as_slice()) {
        Some(k) => Some((k, v)),
        None => None,
    }
}

/// The highest version among the `v`-prefixed tokens of a releases feed
/// (text cut at every character that is neither ASCII alphanumeric nor `.`),
/// without its leading `v`s; of equal versions the first one wins.
pub fn highest_version(xml: &str) -> (r: Option<String>)
    ensures
        r is None <==> (forall|i: int|
            0 <= i < split(xml@, Separator::NonToken).len() ==> (#[trigger] candidate(
                split(xml@, Separator::NonToken)[i],
            )) is None),
        r matches Some(v) ==> exists|i: int|
            is_best_at(split(xml@, Separator::NonToken), i) && (#[trigger] candidate(
                split(xml@, Separator::NonToken)[i],
            )) == Some((candidate_key(split(xml@, Separator::NonToken)[i]), v@)),
{
    let chars = chars_of(xml);
    let toks = split_chars(chars.as_slice(), Separator::NonToken);
    let ghost ts = piece_views(toks@);
    assert(ts == split(xml@, Separator::NonToken));
    let mut best: Option<(VersionKey, Vec<char>)> = None;
    let ghost mut best_i: int = 0;
    let n = toks.len();
    let mut k: usize = 0;
    while k < n
        invariant
            n == ts.len(),
            ts == piece_views(toks@),
            k <= n,
            best is None <==> (forall|j: int| 0 <= j < k ==> (#[trigger] candidate(ts[j])) is None),
            best matches Some((key, v)) ==> {
                &&& 0 <= best_i < k
                &&& candidate(ts[best_i]) == Some((key, v@))
                &&& forall|j: int|
                    0 <= j < k && (#[trigger] candidate(ts[j])) is Some ==> !version_lt(
                        key,
                        candidate_key(ts[j]),
                    )
                &&& forall|j: int|
                    0 <= j < best_i && (#[trigger] candidate(ts[j])) is Some ==> version_lt(
                        candidate_key(ts[j]),
                        key,
                    )
            },
        decreases n - k,
    {
        assert(toks@[k as int]@ == ts[k as int]);
        let c = token_candidate(toks[k].as_slice());
        match c {
            Some((key, v)) => {
                let replace = match &best {
                    Some((bk, _)) => version_less(*bk, key),
                    None => true,
                };
                if replace {
                    best = Some((key, v));
                    proof {
                        best_i = k as int;
                    }
                }
            },
            None => {},
        }
        k = k + 1;
    }
    match best {
        Some((_, v)) => {
            assert(is_best_at(ts, best_i));
            Some(string_from_chars(v.as_slice()))
        },
        None => None,
    }
}

} // verus!
