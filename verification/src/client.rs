//! The REST request executor core: the client's configuration, URL
//! building, the bounded retry-with-backoff discipline, and the uniform
//! mapping from response statuses to the error taxonomy. The HTTP calls
//! themselves are performed by the caller, one attempt at a time; this
//! module decides what each attempt's outcome leads to.

use vstd::prelude::*;
use crate::errors::ClientError;
use crate::text::{spec_parse_u64, parse_u64};

verus! {

/// Total number of attempts for one logical request.
pub const MAX_RETRIES: u32 = 3;

/// The first backoff, in milliseconds; each further backoff doubles it.
pub const INITIAL_BACKOFF_MS: u64 = 1000;

/// The fixed versioned base path of the REST surface.
pub const BASE_URL: &'static str = "https://discord.com/api/v10";

/// The fixed client identification header value.
pub const USER_AGENT_VALUE: &'static str =
    "DiscordBot (https://github.com/ovasconcelos/discline, 0.1.0)";

/// Two to the power `e`.
pub open spec fn pow2(e: nat) -> nat
    decreases e,
{
    if e == 0 {
        1
    } else {
        2 * pow2((e - 1) as nat)
    }
}

/// Relies on `rand::random_range`: a uniform draw from `0..100`, so the
/// jitter is always below 100 ms.
#[verifier::external_body]
fn random_jitter_ms() -> (r: u64)
    ensures
        r < 100,
{
    rand::random_range(0..100u64)
}

/// What one HTTP attempt came to, as the transport reports it.
#[derive(Debug, PartialEq, Eq)]
pub enum AttemptOutcome {
    /// The attempt produced no response at all (connection, DNS, timeout).
    Transport(String),
    /// A response arrived: its status, the raw `retry-after` header when
    /// one was present, and the body text.
    Response { status: u16, retry_after: Option<String>, body: String },
}

/// What the executor does after one attempt.
#[derive(Debug, PartialEq, Eq)]
pub enum RequestStep {
    /// Sleep this many milliseconds, then try again.
    Retry { delay_ms: u64 },
    /// Stop with this error.
    Fail(ClientError),
    /// Stop: the request succeeded with this body text.
    Success { body: String },
}

/// The seconds a rate-limited caller is told to wait: the header's integer
/// value, or 1 when the header is missing or unparseable.
pub open spec fn spec_retry_after(header: Option<String>) -> u64 {
    match header {
        Some(h) => match spec_parse_u64(h@) {
            Some(n) => n,
            None => 1,
        },
        None => 1,
    }
}

/// Whether `e` is the terminal error owed for a non-success status:
/// 401 is unauthorized, 403 forbidden, 404 not-found, 429 rate-limited
/// with the header's wait hint, and anything else the generic API error
/// carrying the status and the body.
pub open spec fn spec_status_error(
    status: u16,
    retry_after: Option<String>,
    body: String,
    e: ClientError,
) -> bool {
    if status == 401 {
        e == ClientError::Unauthorized
    } else if status == 403 {
        e == ClientError::Forbidden
    } else if status == 404 {
        e matches ClientError::NotFound { resource_type, resource_id } && resource_type@
            == "Resource"@ && resource_id@ == "Unknown"@
    } else if status == 429 {
        e == (ClientError::RateLimited { retry_after: spec_retry_after(retry_after) })
    } else {
        e matches ClientError::ApiError { status: s, message } && s == status && message == body
    }
}

/// Whether the outcome of attempt `attempt` sends the executor into
/// another attempt: only a transport failure or a server error status,
/// and never on the last attempt.
pub open spec fn spec_retryable(o: AttemptOutcome, attempt: int) -> bool {
    &&& attempt < 2
    &&& match o {
        AttemptOutcome::Transport(_) => true,
        AttemptOutcome::Response { status, .. } => 500 <= status < 600,
    }
}

/// The attempt at which the executor stops: the first whose outcome is not
/// retryable. The last attempt never retries, so this is at most 2.
pub open spec fn spec_stop_index(outcomes: Seq<AttemptOutcome>) -> int
    recommends
        outcomes.len() >= 3,
{
    if !spec_retryable(outcomes[0], 0) {
        0
    } else if !spec_retryable(outcomes[1], 1) {
        1
    } else {
        2
    }
}

/// Law: a request whose attempts `0 .. k` all fail at transport level and
/// whose attempt `k` brings a success status stops exactly at attempt `k`.
/// With `drive_request`'s contract this means such a request returns that
/// success and observes exactly `k` backoff delays, each within its
/// attempt's backoff window.
pub proof fn lemma_transient_failures_then_success(outcomes: Seq<AttemptOutcome>, k: int)
    requires
        outcomes.len() >= 3,
        0 <= k < 3,
        forall|i: int| 0 <= i < k ==> outcomes[i] is Transport,
        outcomes[k] matches AttemptOutcome::Response { status, .. } && 200 <= status < 300,
    ensures
        spec_stop_index(outcomes) == k,
{
}

/// The executor's configuration: the caller's token and the base URL every
/// endpoint is joined to.
#[derive(Clone, Debug)]
pub struct HttpClient {
    pub token: String,
    pub base_url: String,
}

/// What remains of `s` once its leading `/` characters are gone.
pub open spec fn spec_trim_slashes(s: Seq<char>) -> Seq<char>
    decreases s.len(),
{
    if s.len() > 0 && s[0] == '/' {
        spec_trim_slashes(s.drop_first())
    } else {
        s
    }
}

impl HttpClient {
    /// A client for the fixed REST surface, remembering the token.
    pub fn new(token: String) -> (r: Self)
        ensures
            r.token == token,
            r.base_url@ == "https://discord.com/api/v10"@,
    {
        HttpClient { token, base_url: BASE_URL.to_owned() }
    }

    /// The token this client authenticates with.
    pub fn token(&self) -> (r: &str)
        ensures
            r@ == self.token@,
    {
        self.token.as_str()
    }

    /// The base URL requests are joined to.
    pub fn base_url(&self) -> (r: &str)
        ensures
            r@ == self.base_url@,
    {
        self.base_url.as_str()
    }

    /// Points the client at another base URL.
    pub fn set_base_url(&mut self, url: String)
        ensures
            final(self).base_url == url,
            final(self).token == old(self).token,
    {
        self.base_url = url;
    }

    /// The value of the authorization header: `Bot ` and the token.
    pub fn auth_header(&self) -> (r: String)
        ensures
            r@ == "Bot "@ + self.token@,
    {
        "Bot ".to_owned().concat(self.token.as_str())
    }

    /// The target URL for an endpoint: the base URL, one `/`, and the
    /// endpoint path without its leading slashes.
    pub fn request_url(&self, endpoint: &str) -> (r: String)
        ensures
            r@ == self.base_url@ + "/"@ + spec_trim_slashes(endpoint@),
    {
        let n = endpoint.unicode_len();
        let mut i: usize = 0;
        proof {
            assert(endpoint@.skip(0) =~= endpoint@);
        }
        while i < n && endpoint.get_char(i) == '/'
            invariant
                i <= n,
                n == endpoint@.len(),
                spec_trim_slashes(endpoint@) == spec_trim_slashes(endpoint@.skip(i as int)),
            decreases n - i,
        {
            proof {
                assert(endpoint@.skip(i as int).drop_first() =~= endpoint@.skip(i + 1));
            }
            i += 1;
        }
        let rest = endpoint.substring_char(i, n);
        proof {
            assert(endpoint@.skip(i as int) =~= endpoint@.subrange(i as int, n as int));
        }
        self.base_url.clone().concat("/").concat(rest)
    }

    /// The backoff before the attempt after `attempt`, given that attempt's
    /// jitter: the initial backoff doubled `attempt` times, plus the jitter.
    pub fn backoff_delay_ms(&self, attempt: u32, jitter: u64) -> (r: u64)
        requires
            attempt < 3,
            jitter < 100,
        ensures
            r == 1000 * pow2(attempt as nat) + jitter,
    {
        let factor: u64 = if attempt == 0 {
            1
        } else if attempt == 1 {
            2
        } else {
            4
        };
        proof {
            assert(pow2(0) == 1);
            assert(pow2(1) == 2);
            assert(pow2(2) == 4);
        }
        1000 * factor + jitter
    }

    /// The backoff before the attempt after `attempt`, with a fresh random
    /// jitter: somewhere in `[1000·2^attempt, 1000·2^attempt + 100)` ms.
    /// The caller sleeps this long between attempts.
    pub fn backoff_with_jitter(&self, attempt: u32) -> (r: u64)
        requires
            attempt < 3,
        ensures
            1000 * pow2(attempt as nat) <= r < 1000 * pow2(attempt as nat) + 100,
    {
        self.backoff_delay_ms(attempt, random_jitter_ms())
    }

    /// Maps a non-success status to its terminal error, as the taxonomy
    /// says: 401, 403 and 404 to their named errors, 429 to rate-limited
    /// carrying the header's wait hint (1 when missing or unparseable),
    /// and everything else to the generic API error with the body text.
    pub fn handle_error_status(
        &self,
        status: u16,
        retry_after: Option<String>,
        body: String,
    ) -> (r: ClientError)
        ensures
            spec_status_error(status, retry_after, body, r),
    {
        if status == 401 {
            ClientError::Unauthorized
        } else if status == 403 {
            ClientError::Forbidden
        } else if status == 404 {
            ClientError::NotFound {
                resource_type: "Resource".to_owned(),
                resource_id: "Unknown".to_owned(),
            }
        } else if status == 429 {
            let wait = match retry_after {
                Some(h) => match parse_u64(h.as_str()) {
                    Some(n) => n,
                    None => 1,
                },
                None => 1,
            };
            ClientError::RateLimited { retry_after: wait }
        } else {
            ClientError::ApiError { status, message: body }
        }
    }

    /// Decides what one attempt's outcome leads to. A transport failure or
    /// a server error status retries with the backoff for this attempt —
    /// except on the last attempt, where a transport failure fails with the
    /// transport error and a server error fails with the generic
    /// exhausted-retries error carrying status 500. A success status stops
    /// with the body; any other status stops at once with its mapped error.
    pub fn evaluate_attempt(&self, attempt: u32, outcome: AttemptOutcome, jitter: u64) -> (r:
        RequestStep)
        requires
            attempt < 3,
            jitter < 100,
        ensures
            spec_retryable(outcome, attempt as int) ==> r == (RequestStep::Retry {
                delay_ms: (1000 * pow2(attempt as nat) + jitter) as u64,
            }),
            outcome matches AttemptOutcome::Transport(e) ==> (attempt == 2 ==> r
                == RequestStep::Fail(ClientError::Network(e))),
            outcome matches AttemptOutcome::Response { status, retry_after, body } ==> ({
                &&& (200 <= status < 300) ==> r == (RequestStep::Success { body })
                &&& (!(200 <= status < 300) && !(500 <= status < 600)) ==> (r
                    matches RequestStep::Fail(e) && spec_status_error(status, retry_after, body, e))
                &&& (500 <= status < 600 && attempt == 2) ==> (r matches RequestStep::Fail(
                    ClientError::ApiError { status: s, message },
                ) && s == 500 && message@ == "Max retries reached"@)
            }),
            r is Retry ==> spec_retryable(outcome, attempt as int),
    {
        match outcome {
            AttemptOutcome::Transport(e) => {
                if attempt < 2 {
                    RequestStep::Retry { delay_ms: self.backoff_delay_ms(attempt, jitter) }
                } else {
                    RequestStep::Fail(ClientError::Network(e))
                }
            },
            AttemptOutcome::Response { status, retry_after, body } => {
                if 200 <= status && status < 300 {
                    RequestStep::Success { body }
                } else if 500 <= status && status < 600 {
                    if attempt < 2 {
                        RequestStep::Retry { delay_ms: self.backoff_delay_ms(attempt, jitter) }
                    } else {
                        RequestStep::Fail(
                            ClientError::ApiError {
                                status: 500,
                                message: "Max retries reached".to_owned(),
                            },
                        )
                    }
                } else {
                    RequestStep::Fail(self.handle_error_status(status, retry_after, body))
                }
            },
        }
    }

    /// Runs the whole retry discipline of one logical request over the
    /// outcomes its attempts would meet: `outcomes[i]` is what attempt `i`
    /// comes to, `jitters[i]` the jitter its backoff would use. Returns the
    /// final step — never a retry — and the backoff delays observed, one
    /// per retried attempt, each within its attempt's backoff window.
    pub fn drive_request(&self, outcomes: Vec<AttemptOutcome>, jitters: &Vec<u64>) -> (r: (
        RequestStep,
        Vec<u64>,
    ))
        requires
            outcomes@.len() >= 3,
            jitters@.len() >= 3,
            forall|i: int| 0 <= i < 3 ==> jitters@[i] < 100,
        ensures
            !(r.0 is Retry),
            r.1@.len() == spec_stop_index(outcomes@),
            forall|i: int|
                0 <= i < r.1@.len() ==> r.1@[i] == 1000 * pow2(i as nat) + jitters@[i],
            forall|i: int|
                0 <= i < r.1@.len() ==> 1000 * pow2(i as nat) <= #[trigger] r.1@[i] < 1000
                    * pow2(i as nat) + 100,
            outcomes@[spec_stop_index(outcomes@)] matches AttemptOutcome::Transport(e) ==> r.0
                == RequestStep::Fail(ClientError::Network(e)),
            outcomes@[spec_stop_index(outcomes@)] matches AttemptOutcome::Response {
                status,
                retry_after,
                body,
            } ==> ({
                &&& (200 <= status < 300) ==> r.0 == (RequestStep::Success { body })
                &&& (!(200 <= status < 300) && !(500 <= status < 600)) ==> (r.0
                    matches RequestStep::Fail(e) && spec_status_error(status, retry_after, body, e))
                &&& (500 <= status < 600) ==> (r.0 matches RequestStep::Fail(
                    ClientError::ApiError { status: s, message },
                ) && s == 500 && message@ == "Max retries reached"@)
            }),
    {
        let mut rest = outcomes;
        let mut delays: Vec<u64> = Vec::new();
        let mut attempt: u32 = 0;
        while attempt < 3
            invariant
                attempt <= 3,
                rest@ == outcomes@.skip(attempt as int),
                outcomes@.len() >= 3,
                jitters@.len() >= 3,
                forall|i: int| 0 <= i < 3 ==> jitters@[i] < 100,
                delays@.len() == attempt,
                forall|i: int| 0 <= i < attempt ==> spec_retryable(outcomes@[i], i),
                forall|i: int|
                    0 <= i < attempt ==> delays@[i] == 1000 * pow2(i as nat) + jitters@[i],
            decreases 3 - attempt,
        {
            let outcome = rest.remove(0);
            proof {
                assert(outcome == outcomes@[attempt as int]);
                assert(rest@ =~= outcomes@.skip(attempt + 1));
                assert(pow2(0) == 1);
                assert(pow2(1) == 2);
                assert(pow2(2) == 4);
            }
            let jitter = jitters[attempt as usize];
            let step = self.evaluate_attempt(attempt, outcome, jitter);
            match step {
                RequestStep::Retry { delay_ms } => {
                    delays.push(delay_ms);
                },
                _ => {
                    return (step, delays);
                },
            }
            attempt += 1;
        }
        // Unreachable: the last attempt never retries, so the loop always
        // returns; the exhausted-retries error is the safety net.
        proof {
            assert(spec_retryable(outcomes@[2], 2));
            assert(false);
        }
        (RequestStep::Fail(ClientError::ApiError { status: 500, message: "Max retries reached".to_owned() }), delays)
    }
}

} // verus!
