//! Which credential to offer when the transport asks for one.
//!
//! The strategies are tried in order, each at most once. When none is left
//! the request is refused, so a transport that keeps asking after a
//! rejected credential comes to an end.

use vstd::prelude::*;
use vstd::string::*;

verus! {

/// One way to obtain a credential.
#[derive(Clone, Debug, PartialEq, Eq)]
pub enum CredentialStrategy {
    /// The private key in the file at `path`.
    KeyFile { path: String },
    /// A key held by the running key agent.
    Agent,
}

/// The mathematical value of a `CredentialStrategy`.
pub enum StrategyView {
    KeyFile { path: Seq<char> },
    Agent,
}

impl View for CredentialStrategy {
    type V = StrategyView;

    open spec fn view(&self) -> StrategyView {
        match self {
            CredentialStrategy::KeyFile { path } => StrategyView::KeyFile { path: path@ },
            CredentialStrategy::Agent => StrategyView::Agent,
        }
    }
}

/// Why a request for a credential is refused.
#[derive(Clone, Copy, Debug, PartialEq, Eq, Structural)]
pub enum Refusal {
    /// The transport accepts no key-based credential.
    UnsupportedMode,
    /// Every strategy has been tried.
    Exhausted,
}

/// The answer to one request for a credential.
#[derive(Clone, Debug, PartialEq, Eq)]
pub enum CredentialStep {
    /// Offer the private key in the file at `path`, for `username`.
    KeyFile { username: String, path: String },
    /// Offer the keys of the key agent, for `username`.
    Agent { username: String },
    /// Offer nothing.
    Refuse { reason: Refusal },
}

/// The mathematical value of a `CredentialStep`.
pub enum StepView {
    KeyFile { username: Seq<char>, path: Seq<char> },
    Agent { username: Seq<char> },
    Refuse { reason: Refusal },
}

impl View for CredentialStep {
    type V = StepView;

    open spec fn view(&self) -> StepView {
        match self {
            CredentialStep::KeyFile { username, path } => StepView::KeyFile {
                username: username@,
                path: path@,
            },
            CredentialStep::Agent { username } => StepView::Agent { username: username@ },
            CredentialStep::Refuse { reason } => StepView::Refuse { reason: *reason },
        }
    }
}

/// One request of the transport, as far as the answer depends on it.
pub struct CredentialRequest {
    pub username_from_url: Option<Seq<char>>,
    pub ssh_key_allowed: bool,
}

/// The mathematical value of a `CredentialResolver`: the user name the
/// caller supplied, the strategies in order, and how many have been tried.
pub struct ResolverView {
    pub supplied_username: Option<Seq<char>>,
    pub strategies: Seq<StrategyView>,
    pub tried: nat,
}

/// The characters of an optional string.
pub open spec fn opt_text(text: Option<&str>) -> Option<Seq<char>> {
    match text {
        Some(t) => Some(t@),
        None => None,
    }
}

/// The user name used when neither the address nor the caller gives one.
pub open spec fn default_username() -> Seq<char> {
    seq!['g', 'i', 't']
}

/// The user name to authenticate as: the one in the address, else the one
/// the caller supplied, else the default.
pub open spec fn effective_username(
    from_url: Option<Seq<char>>,
    supplied: Option<Seq<char>>,
) -> Seq<char> {
    match from_url {
        Some(name) => name,
        None => match supplied {
            Some(name) => name,
            None => default_username(),
        },
    }
}

/// The strategies for a caller who named `key_path`, or named none.
pub open spec fn strategies_for(key_path: Option<Seq<char>>) -> Seq<StrategyView> {
    match key_path {
        Some(path) => seq![StrategyView::KeyFile { path }],
        None => seq![StrategyView::Agent],
    }
}

/// A resolver that has tried nothing yet.
pub open spec fn fresh_resolver(
    supplied_username: Option<Seq<char>>,
    key_path: Option<Seq<char>>,
) -> ResolverView {
    ResolverView { supplied_username, strategies: strategies_for(key_path), tried: 0 }
}

/// How many strategies are still untried.
pub open spec fn untried(resolver: ResolverView) -> nat {
    if resolver.tried <= resolver.strategies.len() {
        (resolver.strategies.len() - resolver.tried) as nat
    } else {
        0
    }
}

/// The answer to `request` in the state `resolver`.
pub open spec fn step_of(resolver: ResolverView, request: CredentialRequest) -> StepView {
    if !request.ssh_key_allowed {
        StepView::Refuse { reason: Refusal::UnsupportedMode }
    } else if resolver.tried >= resolver.strategies.len() {
        StepView::Refuse { reason: Refusal::Exhausted }
    } else {
        let username = effective_username(request.username_from_url, resolver.supplied_username);
        match resolver.strategies[resolver.tried as int] {
            StrategyView::KeyFile { path } => StepView::KeyFile { username, path },
            StrategyView::Agent => StepView::Agent { username },
        }
    }
}

/// The state after answering `request` in the state `resolver`: a strategy
/// that was offered counts as tried.
pub open spec fn after_step(resolver: ResolverView, request: CredentialRequest) -> ResolverView {
    if request.ssh_key_allowed && resolver.tried < resolver.strategies.len() {
        ResolverView { tried: resolver.tried + 1, ..resolver }
    } else {
        resolver
    }
}

/// How many credentials are offered in answer to `requests`, taken in order
/// from the state `resolver`.
pub open spec fn offers(resolver: ResolverView, requests: Seq<CredentialRequest>) -> nat
    decreases requests.len(),
{
    if requests.len() == 0 {
        0
    } else {
        let rest = offers(after_step(resolver, requests[0]), requests.drop_first());
        if step_of(resolver, requests[0]) is Refuse {
            rest
        } else {
            rest + 1
        }
    }
}

/// Whatever the transport asks and however often, no more credentials are
/// offered than strategies are left untried.
pub proof fn lemma_offers_bounded(resolver: ResolverView, requests: Seq<CredentialRequest>)
    ensures
        offers(resolver, requests) <= untried(resolver),
    decreases requests.len(),
{
    if requests.len() > 0 {
        lemma_offers_bounded(after_step(resolver, requests[0]), requests.drop_first());
    }
}

/// With no key file named, the agent is the one strategy: the first request
/// that admits keys is answered with it, and any request after that is
/// refused. A credential that the other side rejects is thus not offered
/// again, and the connection attempt fails instead of going round.
pub proof fn lemma_agent_offered_once(
    supplied_username: Option<Seq<char>>,
    first: CredentialRequest,
    later: CredentialRequest,
)
    requires
        first.ssh_key_allowed,
    ensures
        step_of(fresh_resolver(supplied_username, None), first) == (StepView::Agent {
            username: effective_username(first.username_from_url, supplied_username),
        }),
        step_of(after_step(fresh_resolver(supplied_username, None), first), later) is Refuse,
{
}

/// The user name to authenticate as.
pub fn effective_username_of(from_url: Option<&str>, supplied: Option<&str>) -> (name: String)
    ensures
        name@ == effective_username(opt_text(from_url), opt_text(supplied)),
{
    match from_url {
        Some(name) => String::from_str(name),
        None => match supplied {
            Some(name) => String::from_str(name),
            None => {
                proof {
                    reveal_strlit("git");
                    assert("git"@ =~= default_username());
                }
                String::from_str("git")
            },
        },
    }
}

/// Answers the transport's requests for a credential.
pub struct CredentialResolver {
    supplied_username: Option<String>,
    strategies: Vec<CredentialStrategy>,
    tried: usize,
}

impl View for CredentialResolver {
    type V = ResolverView;

    closed spec fn view(&self) -> ResolverView {
        ResolverView {
            supplied_username: match self.supplied_username {
                Some(name) => Some(name@),
                None => None,
            },
            strategies: self.strategies@.map_values(|s: CredentialStrategy| s@),
            tried: self.tried as nat,
        }
    }
}

impl CredentialResolver {
    #[verifier::type_invariant]
    spec fn well_formed(self) -> bool {
        self.tried <= self.strategies.len()
    }

    /// A resolver for a caller who supplied this user name and key file, if any.
    pub fn new(supplied_username: Option<&str>, key_path: Option<&str>) -> (resolver: Self)
        ensures
            resolver@ == fresh_resolver(opt_text(supplied_username), opt_text(key_path)),
    {
        let mut strategies: Vec<CredentialStrategy> = Vec::new();
        match key_path {
            Some(path) => strategies.push(CredentialStrategy::KeyFile { path: String::from_str(path) }),
            None => strategies.push(CredentialStrategy::Agent),
        }
        let supplied = match supplied_username {
            Some(name) => Some(String::from_str(name)),
            None => None,
        };
        let resolver = CredentialResolver { supplied_username: supplied, strategies, tried: 0 };
        assert(resolver@.strategies =~= strategies_for(opt_text(key_path)));
        resolver
    }

    /// How many strategies are still untried.
    pub fn remaining(&self) -> (n: usize)
        ensures
            n == untried(self@),
    {
        proof {
            use_type_invariant(self);
        }
        self.strategies.len() - self.tried
    }

    /// Answers one request: the next untried strategy, which then counts as
    /// tried, or a refusal.
    pub fn next_step(&mut self, username_from_url: Option<&str>, ssh_key_allowed: bool) -> (step:
        CredentialStep)
        ensures
            step@ == step_of(
                old(self)@,
                CredentialRequest { username_from_url: opt_text(username_from_url), ssh_key_allowed },
            ),
            final(self)@ == after_step(
                old(self)@,
                CredentialRequest { username_from_url: opt_text(username_from_url), ssh_key_allowed },
            ),
    {
        proof {
            use_type_invariant(&*self);
        }
        if !ssh_key_allowed {
            return CredentialStep::Refuse { reason: Refusal::UnsupportedMode };
        }
        if self.tried >= self.strategies.len() {
            return CredentialStep::Refuse { reason: Refusal::Exhausted };
        }
        let supplied: Option<&str> = match &self.supplied_username {
            Some(name) => Some(name.as_str()),
            None => None,
        };
        let username = effective_username_of(username_from_url, supplied);
        let step = match &self.strategies[self.tried] {
            CredentialStrategy::KeyFile { path } => CredentialStep::KeyFile {
                username,
                path: path.clone(),
            },
            CredentialStrategy::Agent => CredentialStep::Agent { username },
        };
        self.tried = self.tried + 1;
        step
    }
}

} // verus!
