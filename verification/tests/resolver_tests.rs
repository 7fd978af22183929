use leaderboard_resolver::resolver::{ResolutionOutcome, Resolver, ResolverAction};
use leaderboard_resolver::vanity::{ResolvedId, VanityResolver};

const TARGET_NAME: &str = "Orbnet";
const TARGET_FINGERPRINT: &str = "90588b809dab3942f510d8d438779fbcb20a7b29";

fn row(name: &str, avatar: &str, href: &str) -> String {
    format!(
        r##"<div class="search_row">
  <div class="avatarMedium"><a href="{href}"><img src="{avatar}"></a></div>
  <a class="searchPersonaName" href="{href}">{name}</a>
</div>"##
    )
}

fn page(rows: &[String]) -> String {
    format!("<div id=\"search_results\">{}</div>", rows.join("\n"))
}

fn new_target_resolver(depth: u32) -> Resolver {
    Resolver::new(TARGET_NAME.to_string(), TARGET_FINGERPRINT.to_string(), depth)
}

fn expect_search(r: &Resolver) -> u32 {
    match r.next_action() {
        ResolverAction::Search { text, page } => {
            assert_eq!(text, TARGET_NAME);
            page
        }
        other => panic!("expected a search action, got {other:?}"),
    }
}

#[test]
fn scenario_direct_numeric_match_resolves() {
    // One page, one candidate matching both fields with a numeric reference.
    let mut r = new_target_resolver(1);
    assert_eq!(expect_search(&r), 0);

    let markup = page(&[row(
        "Orbnet",
        "https://avatars.akamai.steamstatic.com/90588b809dab3942f510d8d438779fbcb20a7b29_medium.jpg",
        "https://steamcommunity.com/profiles/76561198020520825",
    )]);
    r.on_page(1, &markup);

    assert_eq!(r.outcome(), Some(ResolutionOutcome::Resolved(76561198020520825)));
    // A numeric reference never asks for a vanity lookup.
    assert!(matches!(
        r.next_action(),
        ResolverAction::Finish { outcome: ResolutionOutcome::Resolved(76561198020520825) }
    ));
}

#[test]
fn scenario_zero_results_is_not_found_after_one_search() {
    let mut r = new_target_resolver(1);
    assert_eq!(expect_search(&r), 0);

    r.on_page(0, "");

    // The provider's zero-result verdict is authoritative: the machine is
    // finished and asks for no second search.
    assert_eq!(r.outcome(), Some(ResolutionOutcome::NotFound));
    assert!(matches!(
        r.next_action(),
        ResolverAction::Finish { outcome: ResolutionOutcome::NotFound }
    ));
}

#[test]
fn scenario_vanity_handle_goes_through_lookup() {
    // Page 0 has one non-matching candidate; page 1 matches with a handle.
    let mut r = new_target_resolver(2);
    assert_eq!(expect_search(&r), 0);

    let page0 = page(&[row(
        "Orbnet",
        "https://avatars.akamai.steamstatic.com/0000000000000000000000000000000000000000_medium.jpg",
        "https://steamcommunity.com/profiles/111",
    )]);
    r.on_page(1, &page0);
    assert_eq!(r.outcome(), None);
    assert_eq!(expect_search(&r), 1);

    let page1 = page(&[row(
        "Orbnet",
        "https://avatars.akamai.steamstatic.com/90588b809dab3942f510d8d438779fbcb20a7b29_medium.jpg",
        "https://steamcommunity.com/id/monjardin1",
    )]);
    r.on_page(1, &page1);

    let handle = match r.next_action() {
        ResolverAction::ResolveVanity { handle } => handle,
        other => panic!("expected a vanity lookup, got {other:?}"),
    };
    assert_eq!(handle, "monjardin1");

    let payload = ResolvedId { steamid: "76561198020520825".to_string(), success: 1 };
    let id = VanityResolver::interpret_response(&payload).unwrap();
    r.on_vanity(Some(id));

    assert_eq!(r.outcome(), Some(ResolutionOutcome::Resolved(76561198020520825)));
}

#[test]
fn depth_exhaustion_aborts_instead_of_not_found() {
    let mut r = new_target_resolver(2);
    let no_match = page(&[row(
        "Orbnet",
        "https://avatars.akamai.steamstatic.com/1111111111111111111111111111111111111111_medium.jpg",
        "https://steamcommunity.com/profiles/222",
    )]);

    assert_eq!(expect_search(&r), 0);
    r.on_page(1, &no_match);
    assert_eq!(expect_search(&r), 1);
    r.on_page(1, &no_match);

    assert_eq!(r.outcome(), Some(ResolutionOutcome::Aborted));
}

#[test]
fn zero_depth_aborts_without_searching() {
    let r = new_target_resolver(0);
    assert_eq!(r.outcome(), Some(ResolutionOutcome::Aborted));
}

#[test]
fn later_candidate_in_row_order_is_selected() {
    // The earlier candidate does not match (wrong fingerprint); the later
    // one does, and row order decides in its favour.
    let mut r = new_target_resolver(1);
    let markup = page(&[
        row(
            "Orbnet",
            "https://avatars.akamai.steamstatic.com/2222222222222222222222222222222222222222_medium.jpg",
            "https://steamcommunity.com/profiles/333",
        ),
        row(
            "Orbnet",
            "https://avatars.akamai.steamstatic.com/90588b809dab3942f510d8d438779fbcb20a7b29_medium.jpg",
            "https://steamcommunity.com/profiles/444",
        ),
        row(
            "Orbnet",
            "https://avatars.akamai.steamstatic.com/90588b809dab3942f510d8d438779fbcb20a7b29_medium.jpg",
            "https://steamcommunity.com/profiles/555",
        ),
    ]);
    r.on_page(3, &markup);
    assert_eq!(r.outcome(), Some(ResolutionOutcome::Resolved(444)));
}

#[test]
fn vanity_miss_is_not_found() {
    let mut r = new_target_resolver(1);
    let markup = page(&[row(
        "Orbnet",
        "https://avatars.akamai.steamstatic.com/90588b809dab3942f510d8d438779fbcb20a7b29_medium.jpg",
        "https://steamcommunity.com/id/gone",
    )]);
    r.on_page(1, &markup);
    assert!(matches!(r.next_action(), ResolverAction::ResolveVanity { .. }));
    r.on_vanity(None);
    assert_eq!(r.outcome(), Some(ResolutionOutcome::NotFound));
}
