//! The paginated disambiguation state machine. For one target player it
//! walks search pages `0 .. depth`, stops on the provider's authoritative
//! zero-result verdict (`NotFound`), selects the first candidate of a page
//! that matches both display name and avatar fingerprint (numeric references
//! finish at once, vanity handles wait for one lookup), and gives up with
//! `Aborted` — a verdict distinct from `NotFound` — when the budget runs out.
//!
//! The machine owns every decision; a driver merely performs the action the
//! machine asks for (one search, one lookup) and feeds the plain response
//! back in.

use vstd::prelude::*;
use crate::candidates::{
    find_matching_user, first_match, scrape_steam_users, users_of_markup, SteamId, SteamIdView,
};

verus! {

/// The terminal verdict for one unresolved player. `NotFound` records the
/// provider's own zero-result signal; `Aborted` records an exhausted search
/// budget without a verdict either way. The two must never be conflated: the
/// first is terminal, the second is worth a deeper retry.
#[derive(Debug, Clone, Copy, PartialEq, Eq, Structural)]
pub enum ResolutionOutcome {
    /// The durable numeric account id.
    Resolved(u64),
    /// The provider affirmatively reported zero matches.
    NotFound,
    /// The search depth budget ran out without a zero-result page and without
    /// a match.
    Aborted,
}

/// Where the resolution of one player stands.
#[derive(Debug, PartialEq, Eq)]
pub enum ResolverState {
    /// The machine asks for this 0-based page next.
    Searching { next_page: u32 },
    /// A matching candidate carried a vanity handle; one lookup call is due.
    AwaitingVanity { handle: String },
    /// Finished.
    Done { outcome: ResolutionOutcome },
}

/// Mathematical image of a [`ResolverState`].
pub ghost enum ResolverStateView {
    Searching { next_page: u32 },
    AwaitingVanity { handle: Seq<char> },
    Done { outcome: ResolutionOutcome },
}

impl View for ResolverState {
    type V = ResolverStateView;

    open spec fn view(&self) -> ResolverStateView {
        match self {
            ResolverState::Searching { next_page } => ResolverStateView::Searching {
                next_page: *next_page,
            },
            ResolverState::AwaitingVanity { handle } => ResolverStateView::AwaitingVanity {
                handle: handle@,
            },
            ResolverState::Done { outcome } => ResolverStateView::Done { outcome: *outcome },
        }
    }
}

/// The disambiguation machine for one target player.
pub struct Resolver {
    /// The target's display name, used both as the search text and in the
    /// match predicate.
    pub name: String,
    /// The target's avatar fingerprint.
    pub fingerprint: String,
    /// How many pages may be examined before giving up.
    pub depth: u32,
    /// Where the resolution stands.
    pub state: ResolverState,
}

/// Mathematical image of a [`Resolver`].
pub ghost struct ResolverView {
    pub name: Seq<char>,
    pub fingerprint: Seq<char>,
    pub depth: u32,
    pub state: ResolverStateView,
}

impl View for Resolver {
    type V = ResolverView;

    open spec fn view(&self) -> ResolverView {
        ResolverView {
            name: self.name@,
            fingerprint: self.fingerprint@,
            depth: self.depth,
            state: self.state@,
        }
    }
}

impl ResolverView {
    /// A searching machine never points past its depth budget.
    pub open spec fn wf(self) -> bool {
        self.state matches ResolverStateView::Searching { next_page } ==> next_page < self.depth
    }
}

/// What one fetched page does to the machine. A zero `result_count` is the
/// provider's authoritative verdict and finishes with `NotFound` at once,
/// whatever the budget. Otherwise the first candidate of the page matching
/// both name and fingerprint decides: a numeric reference finishes with
/// `Resolved`, a vanity handle waits for one lookup. With no match the
/// machine asks for the next page while the budget lasts, and otherwise
/// finishes with `Aborted`.
pub open spec fn step_page(r: ResolverView, result_count: u32, markup: Seq<char>) -> ResolverView
    recommends
        r.state is Searching,
{
    let page = r.state->Searching_next_page;
    if result_count == 0 {
        ResolverView {
            state: ResolverStateView::Done { outcome: ResolutionOutcome::NotFound },
            ..r
        }
    } else {
        match first_match(users_of_markup(markup), r.name, r.fingerprint) {
            Some(u) => match u.id {
                SteamIdView::Id(v) => ResolverView {
                    state: ResolverStateView::Done { outcome: ResolutionOutcome::Resolved(v) },
                    ..r
                },
                SteamIdView::Url(h) => ResolverView {
                    state: ResolverStateView::AwaitingVanity { handle: h },
                    ..r
                },
            },
            None => if page as int + 1 < r.depth as int {
                ResolverView { state: ResolverStateView::Searching { next_page: (page + 1) as u32 }, ..r }
            } else {
                ResolverView {
                    state: ResolverStateView::Done { outcome: ResolutionOutcome::Aborted },
                    ..r
                }
            },
        }
    }
}

/// What the lookup verdict does to a waiting machine: a resolved id finishes
/// with `Resolved`, a provider-confirmed miss finishes with `NotFound`.
pub open spec fn step_vanity(r: ResolverView, resolved: Option<u64>) -> ResolverView
    recommends
        r.state is AwaitingVanity,
{
    match resolved {
        Some(v) => ResolverView {
            state: ResolverStateView::Done { outcome: ResolutionOutcome::Resolved(v) },
            ..r
        },
        None => ResolverView {
            state: ResolverStateView::Done { outcome: ResolutionOutcome::NotFound },
            ..r
        },
    }
}

/// The action a driver owes the machine next.
#[derive(Debug, PartialEq, Eq)]
pub enum ResolverAction {
    /// Issue one search for `text` with this 0-based page.
    Search { text: String, page: u32 },
    /// Look up this vanity handle.
    ResolveVanity { handle: String },
    /// Nothing more to do.
    Finish { outcome: ResolutionOutcome },
}

/// Mathematical image of a [`ResolverAction`].
pub ghost enum ResolverActionView {
    Search { text: Seq<char>, page: u32 },
    ResolveVanity { handle: Seq<char> },
    Finish { outcome: ResolutionOutcome },
}

impl View for ResolverAction {
    type V = ResolverActionView;

    open spec fn view(&self) -> ResolverActionView {
        match self {
            ResolverAction::Search { text, page } => ResolverActionView::Search {
                text: text@,
                page: *page,
            },
            ResolverAction::ResolveVanity { handle } => ResolverActionView::ResolveVanity {
                handle: handle@,
            },
            ResolverAction::Finish { outcome } => ResolverActionView::Finish { outcome: *outcome },
        }
    }
}

/// The action owed in a given state.
pub open spec fn action_of(r: ResolverView) -> ResolverActionView {
    match r.state {
        ResolverStateView::Searching { next_page } => ResolverActionView::Search {
            text: r.name,
            page: next_page,
        },
        ResolverStateView::AwaitingVanity { handle } => ResolverActionView::ResolveVanity {
            handle,
        },
        ResolverStateView::Done { outcome } => ResolverActionView::Finish { outcome },
    }
}

impl Resolver {
    /// Starts the resolution of one target. A zero budget finishes `Aborted`
    /// before any page is asked for.
    pub fn new(name: String, fingerprint: String, depth: u32) -> (r: Resolver)
        ensures
            r@.name == name@,
            r@.fingerprint == fingerprint@,
            r@.depth == depth,
            r@.state == if depth == 0 {
                ResolverStateView::Done { outcome: ResolutionOutcome::Aborted }
            } else {
                ResolverStateView::Searching { next_page: 0u32 }
            },
            r@.wf(),
    {
        let state = if depth == 0 {
            ResolverState::Done { outcome: ResolutionOutcome::Aborted }
        } else {
            ResolverState::Searching { next_page: 0 }
        };
        Resolver { name, fingerprint, depth, state }
    }

    /// The action the driver owes the machine next.
    pub fn next_action(&self) -> (a: ResolverAction)
        ensures
            a@ == action_of(self@),
    {
        match &self.state {
            ResolverState::Searching { next_page } => ResolverAction::Search {
                text: self.name.clone(),
                page: *next_page,
            },
            ResolverState::AwaitingVanity { handle } => ResolverAction::ResolveVanity {
                handle: handle.clone(),
            },
            ResolverState::Done { outcome } => ResolverAction::Finish { outcome: *outcome },
        }
    }

    /// The verdict, once the machine has finished.
    pub fn outcome(&self) -> (r: Option<ResolutionOutcome>)
        ensures
            match self@.state {
                ResolverStateView::Done { outcome } => r == Some(outcome),
                _ => r is None,
            },
    {
        match &self.state {
            ResolverState::Done { outcome } => Some(*outcome),
            _ => None,
        }
    }

    /// Feeds back one fetched search page: the provider's result count and
    /// the result markup. The machine moves exactly as [`step_page`] says.
    pub fn on_page(&mut self, result_count: u32, markup: &str)
        requires
            old(self)@.state is Searching,
            old(self)@.wf(),
        ensures
            final(self)@ == step_page(old(self)@, result_count, markup@),
            final(self)@.wf(),
    {
        let new_state = if result_count == 0 {
            ResolverState::Done { outcome: ResolutionOutcome::NotFound }
        } else {
            let users = scrape_steam_users(markup);
            match find_matching_user(&users, self.name.as_str(), self.fingerprint.as_str()) {
                Some(SteamId::Id(v)) => ResolverState::Done {
                    outcome: ResolutionOutcome::Resolved(v),
                },
                Some(SteamId::Url(h)) => ResolverState::AwaitingVanity { handle: h },
                None => {
                    let page = match &self.state {
                        ResolverState::Searching { next_page } => *next_page,
                        _ => 0,
                    };
                    if page + 1 < self.depth {
                        ResolverState::Searching { next_page: page + 1 }
                    } else {
                        ResolverState::Done { outcome: ResolutionOutcome::Aborted }
                    }
                },
            }
        };
        self.state = new_state;
    }

    /// Feeds back the lookup verdict for the handle the machine is waiting
    /// on: `Some` is the resolved id, `None` the provider-confirmed miss.
    pub fn on_vanity(&mut self, resolved: Option<u64>)
        requires
            old(self)@.state is AwaitingVanity,
        ensures
            final(self)@ == step_vanity(old(self)@, resolved),
            final(self)@.wf(),
    {
        let new_state = match resolved {
            Some(v) => ResolverState::Done { outcome: ResolutionOutcome::Resolved(v) },
            None => ResolverState::Done { outcome: ResolutionOutcome::NotFound },
        };
        self.state = new_state;
    }
}

/// A page whose result count is zero always finishes with `NotFound`,
/// whatever the remaining budget and whatever the markup says.
pub proof fn lemma_zero_results_is_not_found(r: ResolverView, markup: Seq<char>)
    requires
        r.state is Searching,
    ensures
        step_page(r, 0, markup).state == (ResolverStateView::Done {
            outcome: ResolutionOutcome::NotFound,
        }),
{
}

/// A matched candidate whose reference is already numeric finishes at once
/// with exactly that id: the machine never waits for a vanity lookup on it.
pub proof fn lemma_numeric_reference_skips_lookup(
    r: ResolverView,
    result_count: u32,
    markup: Seq<char>,
    v: u64,
)
    requires
        r.state is Searching,
        result_count != 0,
        first_match(users_of_markup(markup), r.name, r.fingerprint) matches Some(u) && u.id
            == SteamIdView::Id(v),
    ensures
        step_page(r, result_count, markup).state == (ResolverStateView::Done {
            outcome: ResolutionOutcome::Resolved(v),
        }),
{
}

/// The machine after a whole run of pages, each fed back in turn.
pub open spec fn run_pages(r: ResolverView, pages: Seq<(u32, Seq<char>)>) -> ResolverView
    decreases pages.len(),
{
    if pages.len() == 0 {
        r
    } else {
        run_pages(step_page(r, pages.first().0, pages.first().1), pages.drop_first())
    }
}

/// Depth exhaustion: when every remaining page of the budget reports results
/// but none holds a candidate matching both name and fingerprint, the run
/// finishes with `Aborted` — never with `NotFound`.
pub proof fn lemma_depth_exhausted_aborts(r: ResolverView, pages: Seq<(u32, Seq<char>)>)
    requires
        r.wf(),
        r.state is Searching,
        pages.len() == r.depth - r.state->Searching_next_page,
        forall|i: int| 0 <= i < pages.len() ==> (#[trigger] pages[i]).0 != 0,
        forall|i: int|
            0 <= i < pages.len() ==> first_match(
                users_of_markup((#[trigger] pages[i]).1),
                r.name,
                r.fingerprint,
            ) is None,
    ensures
        run_pages(r, pages).state == (ResolverStateView::Done {
            outcome: ResolutionOutcome::Aborted,
        }),
    decreases pages.len(),
{
    let page = r.state->Searching_next_page;
    let first = pages.first();
    let r2 = step_page(r, first.0, first.1);
    let rest = pages.drop_first();
    assert(pages[0] == first);
    if page as int + 1 < r.depth as int {
        assert(r2.state == (ResolverStateView::Searching { next_page: (page + 1) as u32 }));
        assert forall|i: int| 0 <= i < rest.len() implies (#[trigger] rest[i]).0 != 0 by {
            assert(rest[i] == pages[i + 1]);
        }
        assert forall|i: int|
            0 <= i < rest.len() implies first_match(
            users_of_markup((#[trigger] rest[i]).1),
            r2.name,
            r2.fingerprint,
        ) is None by {
            assert(rest[i] == pages[i + 1]);
        }
        lemma_depth_exhausted_aborts(r2, rest);
    } else {
        assert(pages.len() == 1);
        assert(rest.len() == 0);
        assert(run_pages(r2, rest) == r2);
    }
}

} // verus!

