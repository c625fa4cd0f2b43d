use vstd::prelude::*;

use crate::errors::login::JwksFailure;

verus! {

/// What the verifier concludes of a token.
#[derive(Copy, Clone, PartialEq, Eq, Debug, Structural)]
pub enum Verdict {
    Valid,
    Invalid(JwksFailure),
}

/// Where a verification stands.
#[derive(Copy, Clone, PartialEq, Eq, Debug, Structural)]
pub enum VerifierState {
    /// The key set has to be fetched before the token can be checked.
    NeedKeys,
    /// The token has to be checked against the cached keys. `fresh` says that
    /// the keys were fetched during this verification.
    NeedCheck { fresh: bool },
    Done(Verdict),
}

/// What the verifier asks to have done next.
#[derive(Copy, Clone, PartialEq, Eq, Debug, Structural)]
pub enum VerifierAction {
    /// Fetch the published key set into the cache.
    FetchKeys,
    /// Check the token's signature and claims against the cached keys.
    CheckToken,
    /// Nothing: the verdict is in.
    Finish(Verdict),
}

/// What came of the action the verifier asked for.
#[derive(Copy, Clone, PartialEq, Eq, Debug, Structural)]
pub enum VerifierEvent {
    KeysFetched,
    FetchFailed(JwksFailure),
    TokenAccepted,
    TokenRejected(JwksFailure),
}

/// The state a verification starts in: with a warm cache the token is
/// checked at once, with a cold one the keys are fetched first.
pub open spec fn start(cache_warm: bool) -> VerifierState {
    if cache_warm {
        VerifierState::NeedCheck { fresh: false }
    } else {
        VerifierState::NeedKeys
    }
}

/// The action a state asks for.
pub open spec fn action_of(state: VerifierState) -> VerifierAction {
    match state {
        VerifierState::NeedKeys => VerifierAction::FetchKeys,
        VerifierState::NeedCheck { .. } => VerifierAction::CheckToken,
        VerifierState::Done(verdict) => VerifierAction::Finish(verdict),
    }
}

/// Whether an event answers the action a state asks for.
pub open spec fn answers(state: VerifierState, event: VerifierEvent) -> bool {
    match state {
        VerifierState::NeedKeys => event is KeysFetched || event is FetchFailed,
        VerifierState::NeedCheck { .. } => event is TokenAccepted || event is TokenRejected,
        VerifierState::Done(_) => false,
    }
}

/// The state that follows a state on an event.
///
/// A failed fetch ends the verification. An accepted token is valid. A
/// rejected token is invalid for the reason given, with one exception: a key
/// missing from a cache that was not fetched during this verification sends
/// the verifier to fetch the keys, once. An event that answers nothing the
/// state asked for changes nothing.
pub open spec fn step(state: VerifierState, event: VerifierEvent) -> VerifierState {
    match (state, event) {
        (VerifierState::NeedKeys, VerifierEvent::KeysFetched) => VerifierState::NeedCheck {
            fresh: true,
        },
        (VerifierState::NeedKeys, VerifierEvent::FetchFailed(reason)) => VerifierState::Done(
            Verdict::Invalid(reason),
        ),
        (VerifierState::NeedCheck { .. }, VerifierEvent::TokenAccepted) => VerifierState::Done(
            Verdict::Valid,
        ),
        (VerifierState::NeedCheck { fresh }, VerifierEvent::TokenRejected(reason)) => {
            if reason is CacheMiss && !fresh {
                VerifierState::NeedKeys
            } else {
                VerifierState::Done(Verdict::Invalid(reason))
            }
        },
        _ => state,
    }
}

/// The state reached from a state on a run of events.
pub open spec fn run(state: VerifierState, events: Seq<VerifierEvent>) -> VerifierState
    decreases events.len(),
{
    if events.len() == 0 {
        state
    } else {
        step(run(state, events.drop_last()), events.last())
    }
}

/// How many answered actions a verification is away from its verdict, at
/// most.
pub open spec fn steps_left(state: VerifierState) -> nat {
    match state {
        VerifierState::NeedCheck { fresh: false } => 3,
        VerifierState::NeedKeys => 2,
        VerifierState::NeedCheck { fresh: true } => 1,
        VerifierState::Done(_) => 0,
    }
}

/// One verification of a bearer token.
#[derive(Clone, PartialEq, Eq, Debug)]
pub struct TokenVerifier {
    pub bearer_token: String,
    /// The client id the token must be issued to.
    pub expected_audience: String,
    pub region: String,
    pub user_pool_id: String,
    pub state: VerifierState,
}

impl TokenVerifier {
    /// A verification of a token against the key set of a user pool.
    /// `cache_warm` says whether the key set has been fetched before.
    pub fn new(
        bearer_token: String,
        expected_audience: String,
        region: String,
        user_pool_id: String,
        cache_warm: bool,
    ) -> (verifier: TokenVerifier)
        ensures
            verifier == (TokenVerifier {
                bearer_token,
                expected_audience,
                region,
                user_pool_id,
                state: start(cache_warm),
            }),
    {
        let state = if cache_warm {
            VerifierState::NeedCheck { fresh: false }
        } else {
            VerifierState::NeedKeys
        };
        TokenVerifier { bearer_token, expected_audience, region, user_pool_id, state }
    }

    /// What has to be done next.
    pub fn action(&self) -> (action: VerifierAction)
        ensures
            action == action_of(self.state),
    {
        match self.state {
            VerifierState::NeedKeys => VerifierAction::FetchKeys,
            VerifierState::NeedCheck { .. } => VerifierAction::CheckToken,
            VerifierState::Done(verdict) => VerifierAction::Finish(verdict),
        }
    }

    /// Takes in what came of the last action.
    pub fn advance(&mut self, event: VerifierEvent)
        ensures
            final(self).state == step(old(self).state, event),
            final(self).bearer_token == old(self).bearer_token,
            final(self).expected_audience == old(self).expected_audience,
            final(self).region == old(self).region,
            final(self).user_pool_id == old(self).user_pool_id,
    {
        let next = match (self.state, event) {
            (VerifierState::NeedKeys, VerifierEvent::KeysFetched) => VerifierState::NeedCheck {
                fresh: true,
            },
            (VerifierState::NeedKeys, VerifierEvent::FetchFailed(reason)) => VerifierState::Done(
                Verdict::Invalid(reason),
            ),
            (VerifierState::NeedCheck { .. }, VerifierEvent::TokenAccepted) => VerifierState::Done(
                Verdict::Valid,
            ),
            (VerifierState::NeedCheck { fresh }, VerifierEvent::TokenRejected(reason)) => {
                match (reason, fresh) {
                    (JwksFailure::CacheMiss, false) => VerifierState::NeedKeys,
                    _ => VerifierState::Done(Verdict::Invalid(reason)),
                }
            },
            (state, _) => state,
        };
        self.state = next;
    }

    /// The verdict, once it is in.
    pub fn verdict(&self) -> (verdict: Option<Verdict>)
        ensures
            verdict == (match self.state {
                VerifierState::Done(v) => Some(v),
                _ => None,
            }),
    {
        match self.state {
            VerifierState::Done(v) => Some(v),
            _ => None,
        }
    }
}

/// A token is found valid only by being accepted: a verification that ends
/// in `Valid` was either there already or has just seen the check accept the
/// token.
pub proof fn lemma_valid_only_when_accepted(state: VerifierState, event: VerifierEvent)
    requires
        step(state, event) == VerifierState::Done(Verdict::Valid),
    ensures
        state == VerifierState::Done(Verdict::Valid) || (state is NeedCheck
            && event is TokenAccepted),
{
}

/// A run of events that holds no accepted token never ends in `Valid`,
/// unless it started there.
pub proof fn lemma_no_false_valid(state: VerifierState, events: Seq<VerifierEvent>)
    requires
        state != VerifierState::Done(Verdict::Valid),
        forall|i: int| 0 <= i < events.len() ==> !(#[trigger] events[i] is TokenAccepted),
    ensures
        run(state, events) != VerifierState::Done(Verdict::Valid),
    decreases events.len(),
{
    if events.len() > 0 {
        let front = events.drop_last();
        assert forall|i: int| 0 <= i < front.len() implies !(#[trigger] front[i] is TokenAccepted) by {
            assert(front[i] == events[i]);
        }
        lemma_no_false_valid(state, front);
        assert(events.last() == events[events.len() - 1]);
    }
}

/// A token whose key is not in the freshly fetched key set, or which names
/// no key at all, is invalid for that very reason.
pub proof fn lemma_missing_key_is_invalid(reason: JwksFailure)
    requires
        reason is CacheMiss || reason is NoKeyID,
    ensures
        step(VerifierState::NeedCheck { fresh: true }, VerifierEvent::TokenRejected(reason))
            == VerifierState::Done(Verdict::Invalid(reason)),
        reason is NoKeyID ==> step(
            VerifierState::NeedCheck { fresh: false },
            VerifierEvent::TokenRejected(reason),
        ) == VerifierState::Done(Verdict::Invalid(reason)),
{
}

/// An expired token is invalid as expired, whatever the state of the cache.
pub proof fn lemma_expired_is_invalid(fresh: bool, expired_at: u64)
    ensures
        step(
            VerifierState::NeedCheck { fresh },
            VerifierEvent::TokenRejected(JwksFailure::TokenExpiredAt(expired_at)),
        ) == VerifierState::Done(Verdict::Invalid(JwksFailure::TokenExpiredAt(expired_at))),
{
}

/// Every answered action brings the verdict nearer, so a verification takes
/// three answered actions at most, and fetches the keys once at most.
pub proof fn lemma_answered_action_brings_verdict_nearer(
    state: VerifierState,
    event: VerifierEvent,
)
    requires
        answers(state, event),
    ensures
        steps_left(step(state, event)) < steps_left(state),
        steps_left(state) <= 3,
{
}

} // verus!
