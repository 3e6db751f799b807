//! How a reply of the exchange endpoint is answered: accept it, give up
//! with an error, or try the request again after a pause.

use vstd::prelude::*;
use vstd::utf8::{encode_utf8, decode_utf8, is_char_boundary, encode_utf8_decode_utf8};
use crate::error::BotError;
use crate::text::{str_eq, push_decimal, decimal, text};
use crate::backoff::pow2;

verus! {

/// Retries after the first request.
pub const MAX_EXCHANGE_RETRIES: u32 = 3;

/// Pause before the first retry, in milliseconds.
pub const FIRST_RETRY_DELAY_MS: u64 = 1000;

/// Longest error body quoted in an HTTP failure, in bytes.
pub const MAX_QUOTED_BODY_BYTES: usize = 200;

/// The "error" field of one entry of a reply's `statuses`.
#[derive(Debug, Clone)]
pub enum StatusError {
    /// no "error" field
    Absent,
    /// an "error" field that is not a string
    NotText,
    /// an "error" string
    Text(String),
}

/// What came back from one request to the exchange endpoint.
#[derive(Debug, Clone)]
pub enum ExchangeReply {
    /// HTTP 429
    TooManyRequests,
    /// any other non-success HTTP status: its display text and the body
    HttpFailure { status: String, body: String },
    /// a success status whose body did not parse: the parser's message
    Unparsable { detail: String },
    /// a parsed body: its `status` field and the "error" field of each
    /// entry of `response.data.statuses`
    Parsed { status: String, statuses: Vec<StatusError> },
}

/// The answer to one reply.
#[derive(Debug, Clone)]
pub enum ExchangeStep {
    /// send the request again after this many milliseconds
    Retry { delay_ms: u64 },
    /// give up with this error
    Fail(BotError),
    /// the reply is accepted; its data is the result
    Done,
}

/// The answer to a reply, as the contracts state it: a retry after a pause,
/// giving up with an order error of this text, or acceptance.
pub enum StepSpec {
    Retry(int),
    FailOrder(Seq<char>),
    Done,
}

/// A step is the answer the contract describes.
pub open spec fn step_is(step: ExchangeStep, spec: StepSpec) -> bool {
    match (step, spec) {
        (ExchangeStep::Retry { delay_ms }, StepSpec::Retry(d)) => delay_ms == d,
        (ExchangeStep::Fail(BotError::Order(m)), StepSpec::FailOrder(t)) => m@ == t,
        (ExchangeStep::Done, StepSpec::Done) => true,
        _ => false,
    }
}

/// The first `n` bytes of the UTF-8 text `s` (all of it when shorter), as
/// characters.
pub open spec fn byte_prefix(s: Seq<char>, n: int) -> Seq<char> {
    let bytes = encode_utf8(s);
    let k = if bytes.len() < n { bytes.len() as int } else { n };
    decode_utf8(bytes.subrange(0, k))
}

/// Where the quoted part of an error body ends, in bytes.
pub open spec fn quote_end(s: Seq<char>) -> int {
    let len = encode_utf8(s).len() as int;
    if len < 200 { len } else { 200 }
}

/// The parts joined with `sep` between them.
pub open spec fn join(parts: Seq<Seq<char>>, sep: Seq<char>) -> Seq<char>
    decreases parts.len(),
{
    if parts.len() == 0 {
        Seq::empty()
    } else if parts.len() == 1 {
        parts[0]
    } else {
        join(parts.drop_last(), sep) + sep + parts.last()
    }
}

/// "[i] message" for every entry whose error is a string, in order.
pub open spec fn status_error_entries(statuses: Seq<StatusError>) -> Seq<Seq<char>>
    decreases statuses.len(),
{
    if statuses.len() == 0 {
        Seq::empty()
    } else {
        let prev = status_error_entries(statuses.drop_last());
        match statuses.last() {
            StatusError::Text(m) => prev.push(
                "["@ + decimal((statuses.len() - 1) as nat) + "] "@ + m@,
            ),
            _ => prev,
        }
    }
}

/// The step the retry state answers a reply with, for the market-data
/// REST client: HTTP 429 and a "rate_limit" status are retried while
/// retries are left; other failures end with an order error; a reply
/// whose statuses carry error strings ends with all of them listed.
pub open spec fn reply_step(attempt: int, delay_ms: int, reply: ExchangeReply) -> StepSpec {
    match reply {
        ExchangeReply::TooManyRequests => rate_limited_step(attempt, delay_ms),
        ExchangeReply::HttpFailure { status, body } => StepSpec::FailOrder("Exchange failed: HTTP "@ + status@ + " — "@ + byte_prefix(body@, 200),
        ),
        ExchangeReply::Unparsable { detail } => StepSpec::FailOrder("Exchange parse failed: "@ + detail@),
        ExchangeReply::Parsed { status, statuses } => if status@ == "rate_limit"@ {
            rate_limited_step(attempt, delay_ms)
        } else if status@ != "ok"@ {
            StepSpec::FailOrder("Exchange rejected: "@ + status@)
        } else {
            let entries = status_error_entries(statuses@);
            if entries.len() == 0 {
                StepSpec::Done
            } else {
                StepSpec::FailOrder("Order errors: "@ + join(entries, "; "@),
                )
            }
        },
    }
}

/// The step for the order REST client: like `reply_step`, but "ratelimited"
/// is a rate limit too, an HTTP failure quotes no body, and only the first
/// status entry is looked at.
pub open spec fn order_reply_step(attempt: int, delay_ms: int, reply: ExchangeReply) -> StepSpec {
    match reply {
        ExchangeReply::TooManyRequests => rate_limited_step(attempt, delay_ms),
        ExchangeReply::HttpFailure { status, body } => StepSpec::FailOrder("Exchange failed: HTTP "@ + status@),
        ExchangeReply::Unparsable { detail } => StepSpec::FailOrder("Exchange parse failed: "@ + detail@),
        ExchangeReply::Parsed { status, statuses } => if status@ == "rate_limit"@ || status@
            == "ratelimited"@ {
            rate_limited_step(attempt, delay_ms)
        } else if status@ != "ok"@ {
            StepSpec::FailOrder("Exchange rejected: "@ + status@)
        } else if statuses@.len() == 0 {
            StepSpec::Done
        } else {
            match statuses@[0] {
                StatusError::Absent => StepSpec::Done,
                StatusError::NotText => StepSpec::FailOrder("Order error: Unknown error"@),
                StatusError::Text(m) => StepSpec::FailOrder("Order error: "@ + m@),
            }
        },
    }
}

/// A rate-limited reply: retried after the current pause while retries are
/// left, else given up.
pub open spec fn rate_limited_step(attempt: int, delay_ms: int) -> StepSpec {
    if attempt < 3 {
        StepSpec::Retry(delay_ms)
    } else {
        StepSpec::FailOrder("Rate limited after max retries"@)
    }
}

/// Retry state of one exchange request: how many retries were made and the
/// pause before the next one (one second, doubled after every retry).
pub struct ExchangeRetry {
    attempt: u32,
    delay_ms: u64,
}

impl ExchangeRetry {
    pub closed spec fn attempt(self) -> int {
        self.attempt as int
    }

    pub closed spec fn delay(self) -> int {
        self.delay_ms as int
    }

    /// At most three retries, each pause twice the one before.
    #[verifier::type_invariant]
    pub closed spec fn inv(self) -> bool {
        &&& self.attempt <= MAX_EXCHANGE_RETRIES
        &&& self.delay_ms == 1000 * pow2(self.attempt as nat)
    }

    pub fn new() -> (r: ExchangeRetry)
        ensures
            r.inv(),
            r.attempt() == 0,
            r.delay() == 1000,
    {
        ExchangeRetry { attempt: 0, delay_ms: FIRST_RETRY_DELAY_MS }
    }

    fn rate_limited(&mut self) -> (step: ExchangeStep)
        ensures
            step_is(step, rate_limited_step(old(self).attempt(), old(self).delay())),
            step is Retry ==> final(self).attempt() == old(self).attempt() + 1,
            !(step is Retry) ==> *final(self) == *old(self),
    {
        proof { use_type_invariant(&*self); }
        if self.attempt < MAX_EXCHANGE_RETRIES {
            let wait = self.delay_ms;
            proof {
                assert(pow2((self.attempt + 1) as nat) == 2 * pow2(self.attempt as nat));
                lemma_pow2_small(self.attempt as nat);
            }
            *self = ExchangeRetry { attempt: self.attempt + 1, delay_ms: wait * 2 };
            ExchangeStep::Retry { delay_ms: wait }
        } else {
            ExchangeStep::Fail(BotError::Order(text("Rate limited after max retries")))
        }
    }

    /// Answer one reply of the market-data REST client. A retry counts
    /// against the three allowed and doubles the next pause.
    pub fn on_reply(&mut self, reply: &ExchangeReply) -> (step: ExchangeStep)
        requires
            reply matches ExchangeReply::HttpFailure { body, .. } ==> {
                &&& encode_utf8(body@).len() <= usize::MAX
                &&& is_char_boundary(encode_utf8(body@), quote_end(body@))
            },
        ensures
            step_is(step, reply_step(old(self).attempt(), old(self).delay(), *reply)),
            step is Retry ==> final(self).attempt() == old(self).attempt() + 1,
            !(step is Retry) ==> *final(self) == *old(self),
    {
        match reply {
            ExchangeReply::TooManyRequests => self.rate_limited(),
            ExchangeReply::HttpFailure { status, body } => {
                let mut m = text("Exchange failed: HTTP ");
                m.append(status.as_str());
                m.append(" — ");
                m.append(quoted_body(body.as_str()));
                ExchangeStep::Fail(BotError::Order(m))
            },
            ExchangeReply::Unparsable { detail } => {
                let mut m = text("Exchange parse failed: ");
                m.append(detail.as_str());
                ExchangeStep::Fail(BotError::Order(m))
            },
            ExchangeReply::Parsed { status, statuses } => {
                if str_eq(status.as_str(), "rate_limit") {
                    self.rate_limited()
                } else if !str_eq(status.as_str(), "ok") {
                    let mut m = text("Exchange rejected: ");
                    m.append(status.as_str());
                    ExchangeStep::Fail(BotError::Order(m))
                } else {
                    let (count, joined) = list_status_errors(statuses);
                    if count == 0 {
                        ExchangeStep::Done
                    } else {
                        let mut m = text("Order errors: ");
                        m.append(joined.as_str());
                        ExchangeStep::Fail(BotError::Order(m))
                    }
                }
            },
        }
    }

    /// Answer one reply of the order REST client.
    pub fn on_order_reply(&mut self, reply: &ExchangeReply) -> (step: ExchangeStep)
        ensures
            step_is(step, order_reply_step(old(self).attempt(), old(self).delay(), *reply)),
            step is Retry ==> final(self).attempt() == old(self).attempt() + 1,
            !(step is Retry) ==> *final(self) == *old(self),
    {
        match reply {
            ExchangeReply::TooManyRequests => self.rate_limited(),
            ExchangeReply::HttpFailure { status, .. } => {
                let mut m = text("Exchange failed: HTTP ");
                m.append(status.as_str());
                ExchangeStep::Fail(BotError::Order(m))
            },
            ExchangeReply::Unparsable { detail } => {
                let mut m = text("Exchange parse failed: ");
                m.append(detail.as_str());
                ExchangeStep::Fail(BotError::Order(m))
            },
            ExchangeReply::Parsed { status, statuses } => {
                if str_eq(status.as_str(), "rate_limit") || str_eq(status.as_str(), "ratelimited") {
                    self.rate_limited()
                } else if !str_eq(status.as_str(), "ok") {
                    let mut m = text("Exchange rejected: ");
                    m.append(status.as_str());
                    ExchangeStep::Fail(BotError::Order(m))
                } else if statuses.len() == 0 {
                    ExchangeStep::Done
                } else {
                    match &statuses[0] {
                        StatusError::Absent => ExchangeStep::Done,
                        StatusError::NotText => ExchangeStep::Fail(
                            BotError::Order(text("Order error: Unknown error")),
                        ),
                        StatusError::Text(msg) => {
                            let mut m = text("Order error: ");
                            m.append(msg.as_str());
                            ExchangeStep::Fail(BotError::Order(m))
                        },
                    }
                }
            },
        }
    }
}

proof fn lemma_pow2_small(n: nat)
    requires
        n < 3,
    ensures
        pow2(n) <= 4,
{
    reveal_with_fuel(pow2, 4);
}

/// The first 200 bytes of a reply body (all of it when shorter).
fn quoted_body(body: &str) -> (r: &str)
    requires
        encode_utf8(body@).len() <= usize::MAX,
        is_char_boundary(encode_utf8(body@), quote_end(body@)),
    ensures
        r@ == byte_prefix(body@, 200),
{
    let len = body.len();
    assert(len == encode_utf8(body@).len());
    let n = if len < MAX_QUOTED_BODY_BYTES { len } else { MAX_QUOTED_BODY_BYTES };
    assert(n == quote_end(body@));
    let (head, _) = body.split_at(n);
    proof {
        encode_utf8_decode_utf8(head@);
        assert(encode_utf8(head@) =~= encode_utf8(body@).subrange(0, n as int));
    }
    head
}

/// How many status entries carry an error string, and their "[i] message"
/// forms joined by "; ".
fn list_status_errors(statuses: &Vec<StatusError>) -> (r: (usize, String))
    ensures
        r.0 == status_error_entries(statuses@).len(),
        r.1@ == join(status_error_entries(statuses@), "; "@),
{
    let mut count: usize = 0;
    let mut out = String::new();
    let mut i: usize = 0;
    assert(statuses@.take(0) =~= Seq::<StatusError>::empty());
    while i < statuses.len()
        invariant
            i <= statuses@.len(),
            count == status_error_entries(statuses@.take(i as int)).len(),
            out@ == join(status_error_entries(statuses@.take(i as int)), "; "@),
            count <= i,
        decreases statuses.len() - i,
    {
        let ghost before = status_error_entries(statuses@.take(i as int));
        assert(statuses@.take(i + 1).drop_last() =~= statuses@.take(i as int));
        assert(statuses@.take(i + 1).last() == statuses@[i as int]);
        match &statuses[i] {
            StatusError::Text(msg) => {
                let ghost entry = "["@ + decimal(i as nat) + "] "@ + msg@;
                if count > 0 {
                    out.append("; ");
                }
                let ghost mark = out@;
                out.append("[");
                push_decimal(&mut out, i as u64);
                out.append("] ");
                out.append(msg.as_str());
                proof {
                    assert(out@ =~= mark + entry);
                    let after = before.push(entry);
                    assert(after.drop_last() =~= before);
                    if count == 0 {
                        assert(before.len() == 0);
                        assert(out@ =~= entry);
                    } else {
                        assert(out@ =~= join(before, "; "@) + "; "@ + entry);
                    }
                }
                count = count + 1;
            },
            _ => {},
        }
        i = i + 1;
    }
    assert(statuses@.take(i as int) =~= statuses@);
    (count, out)
}

/// An order reply with status "ok" is accepted only when its first status
/// entry carries no error (or there is none); when that entry carries an
/// error text, the order fails with "Order error: " and that text, and with
/// an error that is not text, "Order error: Unknown error"; whatever the
/// retry state and the later entries.
pub proof fn lemma_order_errors_are_reported(attempt: int, delay_ms: int, reply: ExchangeReply)
    requires
        reply matches ExchangeReply::Parsed { status, .. } && status@ == "ok"@,
    ensures
        reply matches ExchangeReply::Parsed { statuses, .. } ==> {
            let step = order_reply_step(attempt, delay_ms, reply);
            &&& (step == StepSpec::Done) <==> (statuses@.len() == 0 || statuses@[0] is Absent)
            &&& statuses@.len() > 0 && statuses@[0] is NotText ==> step == StepSpec::FailOrder(
                "Order error: Unknown error"@,
            )
            &&& statuses@.len() > 0 ==> (statuses@[0] matches StatusError::Text(m) ==> step
                == StepSpec::FailOrder("Order error: "@ + m@))
        },
{
    reveal_strlit("ok");
    reveal_strlit("rate_limit");
    reveal_strlit("ratelimited");
    if let ExchangeReply::Parsed { status, statuses } = reply {
        assert(status@.len() == 2);
        assert("rate_limit"@.len() == 10);
        assert("ratelimited"@.len() == 11);
        if statuses@.len() > 0 {
            match statuses@[0] {
                StatusError::Absent => {},
                StatusError::NotText => {},
                StatusError::Text(m) => {},
            }
        }
    }
}

/// However a request's retries went, there were at most three, and the
/// pause before the next is one second doubled once per retry made.
pub proof fn lemma_retry_schedule(r: ExchangeRetry)
    requires
        r.inv(),
    ensures
        r.attempt() <= 3,
        r.delay() == 1000 * pow2(r.attempt() as nat),
        r.attempt() == 3 ==> rate_limited_step(r.attempt(), r.delay()) == StepSpec::FailOrder(
            "Rate limited after max retries"@,
        ),
{
}

} // verus!
