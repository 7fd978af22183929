//! Avatar fingerprinting: the content identifier of an avatar image URL is
//! the part of its last path segment before the first `_`. Two avatar URLs
//! hosted by unrelated systems are taken to show the same image exactly when
//! these identifiers are equal strings.

use vstd::prelude::*;
use vstd::string::StrSliceExecFns;
use crate::text::{first_index_of_char, last_index_of_char, lemma_first_index_of_char,
    lemma_last_index_of_char};

verus! {

/// The fingerprint of an avatar URL: the part of the last path segment before
/// its first `_`, or nothing when the URL has no `/` or its last segment has
/// no `_`.
pub open spec fn fingerprint_of(url: Seq<char>) -> Option<Seq<char>> {
    match last_index_of_char(url, '/') {
        None => None,
        Some(k) => {
            let segment = url.subrange(k + 1, url.len() as int);
            match first_index_of_char(segment, '_') {
                None => None,
                Some(m) => Some(segment.subrange(0, m)),
            }
        },
    }
}

/// Derives the content fingerprint of an avatar image URL, or `None` when the
/// URL does not have the expected `.../<id>_<size suffix>` shape. Total: any
/// string is accepted.
pub fn parse_avatar_url(url: &str) -> (r: Option<&str>)
    ensures
        match r {
            Some(f) => fingerprint_of(url@) == Some(f@),
            None => fingerprint_of(url@) is None,
        },
{
    let n = url.unicode_len();
    let mut i = n;
    let mut slash: usize = 0;
    let mut found = false;
    while i > 0 && !found
        invariant
            n == url@.len(),
            i <= n,
            found ==> slash < n && url@[slash as int] == '/',
            found ==> forall|j: int| slash < j < n ==> url@[j] != '/',
            !found ==> forall|j: int| i <= j < n ==> url@[j] != '/',
        decreases i + (if found { 0int } else { 1int }),
    {
        i = i - 1;
        if url.get_char(i) == '/' {
            slash = i;
            found = true;
        }
    }
    proof {
        lemma_last_index_of_char(url@, '/');
    }
    if !found {
        assert(last_index_of_char(url@, '/') is None);
        return None;
    }
    assert(last_index_of_char(url@, '/') == Some(slash as int));
    let segment = url.substring_char(slash + 1, n);
    let ghost seg = url@.subrange(slash as int + 1, n as int);
    let seg_len = segment.unicode_len();
    let mut m: usize = 0;
    while m < seg_len
        invariant
            segment@ == seg,
            seg_len == seg.len(),
            m <= seg_len,
            slash < n == url@.len(),
            seg == url@.subrange(slash as int + 1, n as int),
            last_index_of_char(url@, '/') == Some(slash as int),
            forall|j: int| 0 <= j < m ==> seg[j] != '_',
        decreases seg_len - m,
    {
        if segment.get_char(m) == '_' {
            proof {
                lemma_first_index_of_char(seg, '_');
                assert(first_index_of_char(seg, '_') == Some(m as int));
            }
            let f = segment.substring_char(0, m);
            return Some(f);
        }
        m = m + 1;
    }
    proof {
        lemma_first_index_of_char(seg, '_');
        assert(first_index_of_char(seg, '_') is None);
    }
    None
}

/// A fingerprint, when one is derived, is always a contiguous part of the URL
/// it was derived from; and no URL makes the derivation fail otherwise than by
/// returning nothing.
pub proof fn lemma_fingerprint_is_substring(url: Seq<char>)
    ensures
        fingerprint_of(url) matches Some(f) ==> exists|i: int, j: int|
            0 <= i <= j <= url.len() && f == url.subrange(i, j),
{
    if fingerprint_of(url) is Some {
        let f = fingerprint_of(url)->Some_0;
        lemma_last_index_of_char(url, '/');
        let k = last_index_of_char(url, '/')->Some_0;
        let segment = url.subrange(k + 1, url.len() as int);
        lemma_first_index_of_char(segment, '_');
        let m = first_index_of_char(segment, '_')->Some_0;
        assert(f =~= url.subrange(k + 1, k + 1 + m));
        assert(0 <= k + 1 <= k + 1 + m <= url.len() && f == url.subrange(k + 1, k + 1 + m));
    }
}

/// Any URL of the shape `<prefix>/<id>_<rest>` — where `<id>` contains neither
/// `/` nor `_` and `<rest>` contains no `/` — fingerprints to exactly `<id>`,
/// whatever the prefix (host, protocol) and whatever the size suffix.
pub proof fn lemma_fingerprint_of_shaped_url(prefix: Seq<char>, id: Seq<char>, rest: Seq<char>)
    requires
        forall|i: int| 0 <= i < id.len() ==> id[i] != '/' && id[i] != '_',
        forall|i: int| 0 <= i < rest.len() ==> rest[i] != '/',
    ensures
        fingerprint_of(prefix + seq!['/'] + id + seq!['_'] + rest) == Some(id),
{
    let url = prefix + seq!['/'] + id + seq!['_'] + rest;
    let k = prefix.len() as int;
    assert(url[k] == '/');
    assert forall|j: int| k < j < url.len() implies url[j] != '/' by {
        if j <= k + id.len() {
            assert(url[j] == id[j - k - 1]);
        } else if j == k + id.len() + 1 {
            assert(url[j] == '_');
        } else {
            assert(url[j] == rest[j - k - id.len() - 2]);
        }
    }
    lemma_last_index_of_char(url, '/');
    match last_index_of_char(url, '/') {
        None => {
            assert(false);
        },
        Some(k2) => {
            assert(k2 >= k);
            assert(k2 == k);
            let segment = url.subrange(k + 1, url.len() as int);
            assert(segment =~= id + seq!['_'] + rest);
            assert(segment[id.len() as int] == '_');
            assert forall|j: int| 0 <= j < id.len() implies segment[j] != '_' by {
                assert(segment[j] == id[j]);
            }
            lemma_first_index_of_char(segment, '_');
            match first_index_of_char(segment, '_') {
                None => {
                    assert(false);
                },
                Some(m) => {
                    assert(m <= id.len());
                    assert(m == id.len());
                    assert(segment.subrange(0, m) =~= id);
                },
            }
        },
    }
}

/// Two URLs that carry the same trailing `<id>_<suffix>` segment fingerprint
/// to equal strings, regardless of differing hosts, protocols or suffixes.
pub proof fn lemma_fingerprint_exact_match(
    prefix1: Seq<char>,
    prefix2: Seq<char>,
    id: Seq<char>,
    rest1: Seq<char>,
    rest2: Seq<char>,
)
    requires
        forall|i: int| 0 <= i < id.len() ==> id[i] != '/' && id[i] != '_',
        forall|i: int| 0 <= i < rest1.len() ==> rest1[i] != '/',
        forall|i: int| 0 <= i < rest2.len() ==> rest2[i] != '/',
    ensures
        fingerprint_of(prefix1 + seq!['/'] + id + seq!['_'] + rest1) == fingerprint_of(
            prefix2 + seq!['/'] + id + seq!['_'] + rest2,
        ),
        fingerprint_of(prefix1 + seq!['/'] + id + seq!['_'] + rest1) == Some(id),
{
    lemma_fingerprint_of_shaped_url(prefix1, id, rest1);
    lemma_fingerprint_of_shaped_url(prefix2, id, rest2);
}

} // verus!
