use vstd::prelude::*;
use vstd::string::*;

verus! {

/// Where the refresh of the OAuth token stands; shared between the requests
/// and the refresh task as a number.
#[derive(Debug, Clone, Copy, PartialEq, Eq, Structural)]
pub enum TokenState {
    /// The token is usable.
    NoNeed,
    /// A request found the token expired and asked for a refresh.
    NeedRefreshing,
    /// The refresh task is refreshing the token.
    InRefreshing,
    /// The refresh failed or the client was shut down: the client is no
    /// longer usable.
    RefreshFailed,
}

/// The number that stands for a token state.
pub open spec fn state_code(s: TokenState) -> u8 {
    match s {
        TokenState::NoNeed => 0,
        TokenState::NeedRefreshing => 1,
        TokenState::InRefreshing => 2,
        TokenState::RefreshFailed => 3,
    }
}

impl TokenState {
    /// The number that stands for the state.
    pub fn to_u8(self) -> (v: u8)
        ensures
            v == state_code(self),
    {
        match self {
            TokenState::NoNeed => 0,
            TokenState::NeedRefreshing => 1,
            TokenState::InRefreshing => 2,
            TokenState::RefreshFailed => 3,
        }
    }

    /// The state a number stands for; `None` for a number that stands for
    /// none.
    pub fn from_u8(v: u8) -> (s: Option<TokenState>)
        ensures
            match s {
                Some(t) => state_code(t) == v,
                None => v > 3,
            },
    {
        if v == 0 {
            Some(TokenState::NoNeed)
        } else if v == 1 {
            Some(TokenState::NeedRefreshing)
        } else if v == 2 {
            Some(TokenState::InRefreshing)
        } else if v == 3 {
            Some(TokenState::RefreshFailed)
        } else {
            None
        }
    }
}

/// A state survives its encoding as a number.
pub proof fn lemma_state_code_round_trip(s: TokenState)
    ensures
        state_code(s) <= 3,
        forall|t: TokenState| state_code(t) == state_code(s) ==> t == s,
{
}

/// The state after a request asks for a refresh: a usable token becomes one
/// that needs refreshing (and the refresh task is woken); any other state
/// stays, as a refresh is already under way or has failed.
pub open spec fn after_refresh_request(s: TokenState) -> TokenState {
    if s == TokenState::NoNeed {
        TokenState::NeedRefreshing
    } else {
        s
    }
}

/// Decides a refresh request: the new state, and whether the refresh task
/// must be woken.
pub fn request_refresh(current: TokenState) -> (r: (TokenState, bool))
    ensures
        r.0 == after_refresh_request(current),
        r.1 == (current == TokenState::NoNeed),
{
    match current {
        TokenState::NoNeed => (TokenState::NeedRefreshing, true),
        other => (other, false),
    }
}

/// Whether the refresh task, when woken, refreshes the token: only when a
/// refresh was asked for; it then marks the token as being refreshed.
pub fn worker_should_refresh(current: TokenState) -> (r: Option<TokenState>)
    ensures
        r is Some <==> current == TokenState::NeedRefreshing,
        r is Some ==> r == Some(TokenState::InRefreshing),
{
    match current {
        TokenState::NeedRefreshing => Some(TokenState::InRefreshing),
        _ => None,
    }
}

/// How a refresh of the token ended.
#[derive(Debug, Clone, Copy, PartialEq, Eq, Structural)]
pub enum RefreshOutcome {
    /// A new token was obtained.
    NewToken,
    /// The client does not use an OAuth token: nothing to refresh.
    NotNeeded,
    /// The refresh failed.
    Failed,
}

/// The state after a refresh, and whether the new token must be written to
/// the token file; waiting requests are woken in every case.
pub fn after_refresh(outcome: RefreshOutcome) -> (r: (TokenState, bool))
    ensures
        r.0 == (if outcome == RefreshOutcome::Failed {
            TokenState::RefreshFailed
        } else {
            TokenState::NoNeed
        }),
        r.1 == (outcome == RefreshOutcome::NewToken),
{
    match outcome {
        RefreshOutcome::NewToken => (TokenState::NoNeed, true),
        RefreshOutcome::NotNeeded => (TokenState::NoNeed, false),
        RefreshOutcome::Failed => (TokenState::RefreshFailed, false),
    }
}

/// The state when the refresh task is shut down: the client becomes
/// unusable (and waiting requests are woken).
pub fn on_refresh_task_cancelled() -> (s: TokenState)
    ensures
        s == TokenState::RefreshFailed,
{
    TokenState::RefreshFailed
}

/// Once the refresh has failed, neither a request nor the refresh task
/// changes the state again: the client stays unusable.
pub proof fn lemma_refresh_failure_is_final()
    ensures
        after_refresh_request(TokenState::RefreshFailed) == TokenState::RefreshFailed,
        TokenState::RefreshFailed != TokenState::NeedRefreshing,
{
}

/// Why a request failed on the client's side.
#[derive(Debug, Clone, Copy, PartialEq, Eq, Structural)]
pub enum QueryFailure {
    /// The client was shut down while the request ran.
    Cancelled,
    /// The token could not be refreshed, or the wait for it timed out.
    TokenRefreshFailed,
    /// The service answered with an error, which is returned as it is.
    ServiceError,
}

/// What a request does when it finds the token in a state.
#[derive(Debug, Clone, Copy, PartialEq, Eq, Structural)]
pub enum TokenGate {
    /// Send the request.
    Proceed,
    /// Wait for the refresh to end, then look again.
    WaitForRefresh,
    /// Fail: the client is unusable.
    Fail,
}

/// What a request does when it finds the token in a state.
pub fn gate(state: TokenState) -> (g: TokenGate)
    ensures
        g == match state {
            TokenState::NoNeed => TokenGate::Proceed,
            TokenState::NeedRefreshing | TokenState::InRefreshing => TokenGate::WaitForRefresh,
            TokenState::RefreshFailed => TokenGate::Fail,
        },
{
    match state {
        TokenState::NoNeed => TokenGate::Proceed,
        TokenState::NeedRefreshing | TokenState::InRefreshing => TokenGate::WaitForRefresh,
        TokenState::RefreshFailed => TokenGate::Fail,
    }
}

/// How a wait for the end of a refresh ended.
#[derive(Debug, Clone, Copy, PartialEq, Eq, Structural)]
pub enum WaitEnd {
    Cancelled,
    TimedOut,
    Notified,
}

/// After a wait for a refresh: cancellation and time-out end the request,
/// a notification sends it round again.
pub fn after_wait(w: WaitEnd) -> (r: Option<QueryFailure>)
    ensures
        r == match w {
            WaitEnd::Cancelled => Some(QueryFailure::Cancelled),
            WaitEnd::TimedOut => Some(QueryFailure::TokenRefreshFailed),
            WaitEnd::Notified => None::<QueryFailure>,
        },
{
    match w {
        WaitEnd::Cancelled => Some(QueryFailure::Cancelled),
        WaitEnd::TimedOut => Some(QueryFailure::TokenRefreshFailed),
        WaitEnd::Notified => None,
    }
}

/// How one attempt of a request ended.
#[derive(Debug, Clone, Copy, PartialEq, Eq, Structural)]
pub enum QueryOutcome {
    Success,
    /// The service refused the OAuth token as expired.
    TokenExpired,
    /// Any other error.
    OtherError,
}

/// What a request does after an attempt.
#[derive(Debug, Clone, Copy, PartialEq, Eq, Structural)]
pub enum QueryStep {
    /// Return the answer.
    Done,
    /// Return a failure.
    Fail(QueryFailure),
    /// Ask for a token refresh, wait for it, then try again.
    RefreshThenRetry,
    /// Try again at once.
    RetryNow,
}

/// The step after an attempt: success ends the request; a first failure is
/// retried once (after refreshing an expired token); a second failure ends
/// the request (an expired token then as a failed refresh, any other error
/// as itself).
pub open spec fn step_after(retried: bool, o: QueryOutcome) -> QueryStep {
    match o {
        QueryOutcome::Success => QueryStep::Done,
        QueryOutcome::TokenExpired => if retried {
            QueryStep::Fail(QueryFailure::TokenRefreshFailed)
        } else {
            QueryStep::RefreshThenRetry
        },
        QueryOutcome::OtherError => if retried {
            QueryStep::Fail(QueryFailure::ServiceError)
        } else {
            QueryStep::RetryNow
        },
    }
}

/// Whether a step ends the request.
pub open spec fn is_final(s: QueryStep) -> bool {
    s is Done || s is Fail
}

/// The retry budget of one request.
pub struct QueryRetry {
    retried: bool,
}

impl QueryRetry {
    /// Whether the request has been retried already.
    pub closed spec fn spec_retried(&self) -> bool {
        self.retried
    }

    /// A request that has not been tried yet.
    pub fn new() -> (q: QueryRetry)
        ensures
            !q.spec_retried(),
    {
        QueryRetry { retried: false }
    }

    /// Decides what follows an attempt (see [`step_after`]).
    pub fn on_outcome(&mut self, o: QueryOutcome) -> (s: QueryStep)
        ensures
            s == step_after(old(self).spec_retried(), o),
            final(self).spec_retried() == (old(self).spec_retried() || !is_final(s)),
    {
        match o {
            QueryOutcome::Success => QueryStep::Done,
            QueryOutcome::TokenExpired => if self.retried {
                QueryStep::Fail(QueryFailure::TokenRefreshFailed)
            } else {
                self.retried = true;
                QueryStep::RefreshThenRetry
            },
            QueryOutcome::OtherError => if self.retried {
                QueryStep::Fail(QueryFailure::ServiceError)
            } else {
                self.retried = true;
                QueryStep::RetryNow
            },
        }
    }
}

/// How many attempts a request makes when its attempts end as `outcomes`
/// say, stopping at the first final step.
pub open spec fn attempts(retried: bool, outcomes: Seq<QueryOutcome>) -> nat
    decreases outcomes.len(),
{
    if outcomes.len() == 0 {
        0
    } else {
        let s = step_after(retried, outcomes[0]);
        if is_final(s) {
            1
        } else {
            1 + attempts(true, outcomes.drop_first())
        }
    }
}

proof fn lemma_attempts_bounded(retried: bool, outcomes: Seq<QueryOutcome>)
    ensures
        attempts(retried, outcomes) <= (if retried {
            1nat
        } else {
            2nat
        }),
    decreases outcomes.len(),
{
    if outcomes.len() > 0 {
        lemma_attempts_bounded(true, outcomes.drop_first());
    }
}

/// A request reaches the service at most twice: the first attempt and a
/// single retry, whatever the answers.
pub proof fn lemma_at_most_one_retry(outcomes: Seq<QueryOutcome>)
    ensures
        attempts(false, outcomes) <= 2,
{
    lemma_attempts_bounded(false, outcomes);
}

/// Whether `needle` occurs in `hay`.
pub open spec fn contains_text(hay: Seq<char>, needle: Seq<char>) -> bool {
    exists|i: int| 0 <= i && i + needle.len() <= hay.len() && #[trigger] hay.subrange(i, i + needle.len()) == needle
}

fn matches_at(hay: &str, needle: &str, at: usize) -> (b: bool)
    requires
        at + needle@.len() <= hay@.len(),
        hay@.len() <= usize::MAX,
    ensures
        b == (hay@.subrange(at as int, at + needle@.len()) == needle@),
{
    let n = needle.unicode_len();
    let mut k: usize = 0;
    while k < n
        invariant
            n == needle@.len(),
            at + n <= hay@.len(),
            hay@.len() <= usize::MAX,
            k <= n,
            forall|j: int| 0 <= j < k ==> hay@[at + j] == needle@[j],
        decreases n - k,
    {
        if hay.get_char(at + k) != needle.get_char(k) {
            assert(hay@.subrange(at as int, at + n)[k as int] != needle@[k as int]);
            return false;
        }
        k = k + 1;
    }
    assert(hay@.subrange(at as int, at + n) =~= needle@);
    true
}

/// Whether `needle` occurs in `hay`.
pub fn text_contains(hay: &str, needle: &str) -> (b: bool)
    ensures
        b == contains_text(hay@, needle@),
{
    let h = hay.unicode_len();
    let n = needle.unicode_len();
    if n > h {
        return false;
    }
    let last = h - n;
    let mut i: usize = 0;
    while i <= last
        invariant
            h == hay@.len(),
            n == needle@.len(),
            n <= h,
            last == h - n,
            i <= last,
            forall|j: int| 0 <= j < i ==> #[trigger] hay@.subrange(j, j + n) != needle@,
        decreases last - i,
    {
        if matches_at(hay, needle, i) {
            return true;
        }
        if i == last {
            return false;
        }
        i = i + 1;
    }
    false
}

/// Whether the text of a service error tells of an expired OAuth token: it
/// mentions both `OAuth` and `expired`.
pub fn is_expired_token_message(message: &str) -> (b: bool)
    ensures
        b == (contains_text(message@, seq!['O', 'A', 'u', 't', 'h']) && contains_text(
            message@,
            seq!['e', 'x', 'p', 'i', 'r', 'e', 'd'],
        )),
{
    let oauth = "OAuth";
    let expired = "expired";
    proof {
        reveal_strlit("OAuth");
        reveal_strlit("expired");
        assert(oauth@ =~= seq!['O', 'A', 'u', 't', 'h']);
        assert(expired@ =~= seq!['e', 'x', 'p', 'i', 'r', 'e', 'd']);
    }
    text_contains(message, oauth) && text_contains(message, expired)
}

} // verus!
