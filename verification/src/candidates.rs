//! Candidate extraction: turns one page of search-result markup into the
//! sequence of candidate users it shows, and finds the first candidate that
//! matches a target by display name and avatar fingerprint together.
//!
//! The markup itself is taken apart by the `scraper` crate behind one trusted
//! wrapper; everything from the raw row fields onward is verified, including
//! the profile-link shapes, the skipping of malformed rows, and the
//! first-match-wins selection order.

use vstd::prelude::*;
use vstd::string::StrSliceExecFns;
use crate::fingerprint::{fingerprint_of, parse_avatar_url};
use crate::text::{
    all_digits, dec_value, last_index_of_char, lemma_last_index_of_char, parse_u64, rfind_char,
    str_eq,
};

verus! {

/// One search-result row as the markup shows it, before any validation: the
/// display name, the avatar image address and the profile link, each absent
/// where the row lacks the element or attribute.
pub struct RawRow {
    pub name: Option<String>,
    pub avatar_url: Option<String>,
    pub link_target: Option<String>,
}

/// Mathematical image of a [`RawRow`].
pub ghost struct RawRowView {
    pub name: Option<Seq<char>>,
    pub avatar_url: Option<Seq<char>>,
    pub link_target: Option<Seq<char>>,
}

impl View for RawRow {
    type V = RawRowView;

    open spec fn view(&self) -> RawRowView {
        RawRowView {
            name: match self.name {
                Some(s) => Some(s@),
                None => None,
            },
            avatar_url: match self.avatar_url {
                Some(s) => Some(s@),
                None => None,
            },
            link_target: match self.link_target {
                Some(s) => Some(s@),
                None => None,
            },
        }
    }
}

/// The raw rows that one page of search-result markup shows, in document
/// order. What this sequence holds for a given markup is decided by the HTML
/// grammar and the fixed selectors, so it is left uninterpreted and pinned to
/// the `scraper` crate by [`search_rows`].
pub uninterp spec fn raw_rows_of(markup: Seq<char>) -> Seq<RawRowView>;

/// Relies on the `scraper` crate (`Html::parse_document`, `Selector::parse`,
/// CSS selection in document order): hands back one entry per
/// `div.search_row` element of the markup, carrying the row's display name
/// (inner HTML of its first `a.searchPersonaName`), its avatar image address
/// (`src` of its first `div.avatarMedium > a > img`) and its profile link
/// (`href` of its first `div.avatarMedium > a`), each absent where the row
/// lacks the element or the attribute. The selector strings are fixed valid
/// CSS, so `Selector::parse` cannot fail on them.
#[verifier::external_body]
fn search_rows(markup: &str) -> (rows: Vec<RawRow>)
    ensures
        rows@.map_values(|r: RawRow| r@) == raw_rows_of(markup@),
{
    let document = scraper::Html::parse_document(markup);
    let row_sel = scraper::Selector::parse("div.search_row").unwrap();
    let name_sel = scraper::Selector::parse("a.searchPersonaName").unwrap();
    let img_sel = scraper::Selector::parse("div.avatarMedium > a > img").unwrap();
    let link_sel = scraper::Selector::parse("div.avatarMedium > a").unwrap();
    document
        .select(&row_sel)
        .map(|row| RawRow {
            name: row.select(&name_sel).next().map(|e| e.inner_html()),
            avatar_url: row.select(&img_sel).next().and_then(|e| e.attr("src")).map(String::from),
            link_target: row.select(&link_sel).next().and_then(|e| e.attr("href")).map(
                String::from,
            ),
        })
        .collect()
}

/// A profile reference: either an already-numeric account id, or a vanity
/// handle that still needs a lookup call to resolve.
#[derive(Debug, PartialEq, Eq)]
pub enum SteamId {
    Id(u64),
    Url(String),
}

/// Mathematical image of a [`SteamId`].
pub ghost enum SteamIdView {
    Id(u64),
    Url(Seq<char>),
}

impl View for SteamId {
    type V = SteamIdView;

    open spec fn view(&self) -> SteamIdView {
        match self {
            SteamId::Id(v) => SteamIdView::Id(*v),
            SteamId::Url(s) => SteamIdView::Url(s@),
        }
    }
}

/// The profile reference encoded by a link target: a last path segment of
/// digits under a `profiles` segment is a numeric id, a last segment under an
/// `id` segment is a vanity handle, and any other shape encodes nothing.
pub open spec fn steam_id_of_link(link: Seq<char>) -> Option<SteamIdView> {
    match last_index_of_char(link, '/') {
        None => None,
        Some(k) => {
            let head = link.subrange(0, k);
            let tail = link.subrange(k + 1, link.len() as int);
            match last_index_of_char(head, '/') {
                None => None,
                Some(k2) => {
                    let kind = head.subrange(k2 + 1, k);
                    if kind == "id"@ {
                        Some(SteamIdView::Url(tail))
                    } else if kind == "profiles"@ {
                        if tail.len() > 0 && all_digits(tail) && dec_value(tail)
                            <= u64::MAX as int {
                            Some(SteamIdView::Id(dec_value(tail) as u64))
                        } else {
                            None
                        }
                    } else {
                        None
                    }
                },
            }
        },
    }
}

impl SteamId {
    /// Parses a profile link target: `.../profiles/<digits>` yields `Id`,
    /// `.../id/<handle>` yields `Url`, and any other shape is rejected.
    pub fn from_link(link: &str) -> (r: Option<SteamId>)
        ensures
            match r {
                Some(id) => steam_id_of_link(link@) == Some(id@),
                None => steam_id_of_link(link@) is None,
            },
    {
        let n = link.unicode_len();
        let k = match rfind_char(link, '/') {
            Some(k) => k,
            None => {
                return None;
            },
        };
        let head = link.substring_char(0, k);
        let tail = link.substring_char(k + 1, n);
        let k2 = match rfind_char(head, '/') {
            Some(k2) => k2,
            None => {
                return None;
            },
        };
        proof {
            lemma_last_index_of_char(head@, '/');
        }
        let kind = head.substring_char(k2 + 1, k);
        if str_eq(kind, "id") {
            Some(SteamId::Url(tail.to_owned()))
        } else if str_eq(kind, "profiles") {
            match parse_u64(tail) {
                Some(v) => Some(SteamId::Id(v)),
                None => None,
            }
        } else {
            None
        }
    }

    /// An equal copy.
    pub fn duplicate(&self) -> (r: SteamId)
        ensures
            r@ == self@,
    {
        match self {
            SteamId::Id(v) => SteamId::Id(*v),
            SteamId::Url(s) => SteamId::Url(s.clone()),
        }
    }
}

/// A candidate user extracted from one search-result row.
#[derive(Debug, PartialEq, Eq)]
pub struct SteamUser {
    pub name: String,
    pub avatar: String,
    pub id: SteamId,
}

/// Mathematical image of a [`SteamUser`].
pub ghost struct SteamUserView {
    pub name: Seq<char>,
    pub avatar: Seq<char>,
    pub id: SteamIdView,
}

impl View for SteamUser {
    type V = SteamUserView;

    open spec fn view(&self) -> SteamUserView {
        SteamUserView { name: self.name@, avatar: self.avatar@, id: self.id@ }
    }
}

/// The candidate a raw row yields: all three fields must be present and the
/// link target must encode a profile reference, otherwise the row is a
/// row-level failure and yields nothing.
pub open spec fn user_of_row(r: RawRowView) -> Option<SteamUserView> {
    match (r.name, r.avatar_url, r.link_target) {
        (Some(name), Some(avatar), Some(link)) => match steam_id_of_link(link) {
            Some(id) => Some(SteamUserView { name, avatar, id }),
            None => None,
        },
        _ => None,
    }
}

/// The candidates of a row sequence, in row order, malformed rows skipped.
pub open spec fn users_of_rows(rows: Seq<RawRowView>) -> Seq<SteamUserView>
    decreases rows.len(),
{
    if rows.len() == 0 {
        Seq::empty()
    } else {
        let rest = users_of_rows(rows.drop_last());
        match user_of_row(rows.last()) {
            Some(u) => rest.push(u),
            None => rest,
        }
    }
}

/// The candidates one page of search-result markup shows, in document order.
pub open spec fn users_of_markup(markup: Seq<char>) -> Seq<SteamUserView> {
    users_of_rows(raw_rows_of(markup))
}

/// Extracts the candidate users of one page of search-result markup, in
/// document order. A malformed row (missing name, avatar or link, or a link
/// of an unknown shape) is skipped; it never hides the rest of the page.
pub fn scrape_steam_users(html: &str) -> (users: Vec<SteamUser>)
    ensures
        users@.map_values(|u: SteamUser| u@) == users_of_markup(html@),
{
    let rows = search_rows(html);
    let ghost row_views = rows@.map_values(|r: RawRow| r@);
    let mut users: Vec<SteamUser> = Vec::new();
    let mut i: usize = 0;
    proof {
        assert(row_views.subrange(0, 0) =~= Seq::<RawRowView>::empty());
    }
    while i < rows.len()
        invariant
            row_views == rows@.map_values(|r: RawRow| r@),
            row_views == raw_rows_of(html@),
            i <= rows@.len(),
            row_views.len() == rows@.len(),
            users@.map_values(|u: SteamUser| u@) == users_of_rows(row_views.subrange(0, i as int)),
        decreases rows@.len() - i,
    {
        let row = &rows[i];
        let ghost before = users@.map_values(|u: SteamUser| u@);
        let parsed: Option<SteamUser> = match (&row.name, &row.avatar_url, &row.link_target) {
            (Some(name), Some(avatar), Some(link)) => match SteamId::from_link(link.as_str()) {
                Some(id) => Some(
                    SteamUser { name: name.clone(), avatar: avatar.clone(), id },
                ),
                None => None,
            },
            _ => None,
        };
        proof {
            assert(row_views[i as int] == rows@[i as int]@);
            assert(row_views.subrange(0, i + 1).drop_last() =~= row_views.subrange(0, i as int));
            assert(row_views.subrange(0, i + 1).last() == row_views[i as int]);
        }
        match parsed {
            Some(u) => {
                proof {
                    assert(user_of_row(row_views[i as int]) == Some(u@));
                }
                users.push(u);
                proof {
                    assert(users@.map_values(|u: SteamUser| u@) =~= before.push(
                        users@.last()@,
                    ));
                }
            },
            None => {
                proof {
                    assert(user_of_row(row_views[i as int]) is None);
                }
            },
        }
        i = i + 1;
    }
    proof {
        assert(row_views.subrange(0, row_views.len() as int) =~= row_views);
    }
    users
}

/// A candidate matches the target exactly when the display names are equal
/// and the candidate's avatar fingerprints to the target's fingerprint. Name
/// alone is not unique, and unrelated accounts share default avatars, so both
/// are required.
pub open spec fn user_matches(u: SteamUserView, name: Seq<char>, fp: Seq<char>) -> bool {
    u.name == name && fingerprint_of(u.avatar) == Some(fp)
}

/// The first candidate, in row order, that matches the target.
pub open spec fn first_match(users: Seq<SteamUserView>, name: Seq<char>, fp: Seq<char>) -> Option<
    SteamUserView,
>
    decreases users.len(),
{
    if users.len() == 0 {
        None
    } else if user_matches(users.first(), name, fp) {
        Some(users.first())
    } else {
        first_match(users.drop_first(), name, fp)
    }
}

/// Scans the candidates in row order and hands back the profile reference of
/// the first one whose name and avatar fingerprint both match the target.
pub fn find_matching_user(users: &Vec<SteamUser>, name: &str, avatar_fingerprint: &str) -> (r:
    Option<SteamId>)
    ensures
        match r {
            Some(id) => {
                &&& first_match(
                    users@.map_values(|u: SteamUser| u@),
                    name@,
                    avatar_fingerprint@,
                ) matches Some(u)
                &&& u.id == id@
            },
            None => first_match(
                users@.map_values(|u: SteamUser| u@),
                name@,
                avatar_fingerprint@,
            ) is None,
        },
{
    let ghost user_views = users@.map_values(|u: SteamUser| u@);
    let mut i: usize = 0;
    proof {
        assert(user_views.subrange(0, user_views.len() as int) =~= user_views);
    }
    while i < users.len()
        invariant
            user_views == users@.map_values(|u: SteamUser| u@),
            i <= users@.len(),
            user_views.len() == users@.len(),
            first_match(user_views, name@, avatar_fingerprint@) == first_match(
                user_views.subrange(i as int, user_views.len() as int),
                name@,
                avatar_fingerprint@,
            ),
        decreases users@.len() - i,
    {
        let u = &users[i];
        let ghost tail = user_views.subrange(i as int, user_views.len() as int);
        proof {
            assert(tail.len() > 0);
            assert(tail.first() == user_views[i as int]);
            assert(tail.drop_first() =~= user_views.subrange(i + 1, user_views.len() as int));
        }
        let name_hit = str_eq(u.name.as_str(), name);
        let fp_hit = match parse_avatar_url(u.avatar.as_str()) {
            Some(hash) => str_eq(hash, avatar_fingerprint),
            None => false,
        };
        if name_hit && fp_hit {
            assert(user_matches(user_views[i as int], name@, avatar_fingerprint@));
            return Some(u.id.duplicate());
        }
        assert(!user_matches(user_views[i as int], name@, avatar_fingerprint@));
        i = i + 1;
    }
    proof {
        assert(user_views.subrange(user_views.len() as int, user_views.len() as int)
            =~= Seq::<SteamUserView>::empty());
    }
    None
}

/// Row order is respected: if some candidate matches and every candidate
/// before it does not, the match selected is exactly that candidate, however
/// many further matches the page holds.
pub proof fn lemma_first_match_respects_order(
    users: Seq<SteamUserView>,
    name: Seq<char>,
    fp: Seq<char>,
    j: int,
)
    requires
        0 <= j < users.len(),
        user_matches(users[j], name, fp),
        forall|i: int| 0 <= i < j ==> !user_matches(#[trigger] users[i], name, fp),
    ensures
        first_match(users, name, fp) == Some(users[j]),
    decreases j,
{
    if j == 0 {
        assert(users.first() == users[0]);
    } else {
        assert(!user_matches(users.first(), name, fp));
        let d = users.drop_first();
        assert(d[j - 1] == users[j]);
        assert forall|i: int| 0 <= i < j - 1 implies !user_matches(#[trigger] d[i], name, fp) by {
            assert(d[i] == users[i + 1]);
        }
        lemma_first_match_respects_order(d, name, fp, j - 1);
    }
}

} // verus!
