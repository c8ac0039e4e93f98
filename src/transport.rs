//! The decisions of the send/wait/retry loop, as a state machine.
//!
//! The caller owns the socket. It asks the engine what to do first, performs
//! each action, and reports what it observed; the engine answers with the
//! next action. Every wait doubles: attempt `n` waits `250 * 2^n` ms.
use vstd::arithmetic::power2::{lemma2_to64, lemma_pow2_adds, lemma_pow2_strictly_increases, lemma_pow2_unfold, pow2};
use vstd::prelude::*;

verus! {

/// The default number of attempts (RFC 6886 recommends nine).
pub const DEFAULT_MAX_TRIES: u32 = 9;

/// The base of the exponential backoff, in milliseconds.
pub const BASE_TIMEOUT_MS: u64 = 250;

/// How long attempt `n` waits for a reply, in milliseconds.
pub open spec fn backoff_ms(n: nat) -> int {
    250 * pow2(n) as int
}

/// `backoff_ms(n)`, or `u64::MAX` where that does not fit in 64 bits.
pub open spec fn capped_backoff_ms(n: nat) -> u64 {
    if backoff_ms(n) <= u64::MAX {
        backoff_ms(n) as u64
    } else {
        u64::MAX
    }
}

/// Computes how long attempt `n` waits for a reply, in milliseconds,
/// saturating at `u64::MAX` (from attempt 57 on).
pub fn backoff_timeout_ms(n: u32) -> (r: u64)
    ensures
        r == capped_backoff_ms(n as nat),
{
    let mut w: u64 = BASE_TIMEOUT_MS;
    let mut i: u32 = 0;
    proof {
        lemma2_to64();
    }
    while i < n
        invariant
            i <= n,
            w == backoff_ms(i as nat),
        decreases n - i,
    {
        if w > u64::MAX / 2 {
            proof {
                let k = (i + 1) as nat;
                lemma_pow2_unfold(k);
                if k < n {
                    lemma_pow2_strictly_increases(k, n as nat);
                }
            }
            return u64::MAX;
        }
        proof {
            lemma_pow2_unfold((i + 1) as nat);
        }
        w = w * 2;
        i = i + 1;
    }
    w
}

/// What the caller observed after sending and waiting.
#[derive(Debug, Clone, Copy, PartialEq, Eq, Structural)]
pub enum Event {
    /// Nothing arrived before the wait ran out.
    Timeout,
    /// A datagram arrived from this IPv4 address (a big-endian integer), or
    /// from an address that is not IPv4 (`None`).
    Datagram(Option<u32>),
    /// The non-blocking socket had nothing to hand over yet.
    WouldBlock,
    /// The socket failed in any other way.
    SocketFailure,
}

/// What the caller must do next.
#[derive(Debug, Clone, Copy, PartialEq, Eq, Structural)]
pub enum Action {
    /// Zero the receive buffer, send the request, and wait up to `wait_ms`
    /// milliseconds; this is attempt number `attempt`, counting from one.
    Send { attempt: u32, wait_ms: u64 },
    /// The datagram came from the gateway: parse it and return the outcome.
    Deliver,
    /// The socket failed: stop and report its error.
    Abort,
    /// Every attempt went unanswered: the gateway does not speak NAT-PMP.
    GiveUp,
}

/// The state of one request's retry loop.
#[derive(Debug, Clone, Copy, PartialEq, Eq, Structural)]
pub struct RetryEngine {
    /// The only address whose datagrams are accepted.
    pub gateway: u32,
    /// How many times the request may be sent.
    pub max_tries: u32,
    /// How many times it has been sent so far.
    pub attempt: u32,
}

/// The next send, or giving up once every attempt has been spent.
pub open spec fn advance(e: RetryEngine) -> (RetryEngine, Action) {
    if e.attempt < e.max_tries {
        let n = (e.attempt + 1) as u32;
        (RetryEngine { attempt: n, ..e }, Action::Send { attempt: n, wait_ms: capped_backoff_ms(n as nat) })
    } else {
        (e, Action::GiveUp)
    }
}

/// The engine's answer to an event: a datagram from the gateway is
/// delivered, a socket failure aborts, and anything else (a timeout, a
/// spurious wake-up, a datagram from any other address) moves on to the
/// next attempt.
pub open spec fn step(e: RetryEngine, ev: Event) -> (RetryEngine, Action) {
    match ev {
        Event::Datagram(source) => if source == Some(e.gateway) {
            (e, Action::Deliver)
        } else {
            advance(e)
        },
        Event::SocketFailure => (e, Action::Abort),
        Event::Timeout => advance(e),
        Event::WouldBlock => advance(e),
    }
}

impl RetryEngine {
    /// No more sends than allowed have been made.
    pub open spec fn wf(&self) -> bool {
        self.attempt <= self.max_tries
    }

    /// A loop for a request to `gateway` that may be sent `max_tries` times.
    pub fn new(gateway: u32, max_tries: u32) -> (r: Self)
        ensures
            r == (RetryEngine { gateway, max_tries, attempt: 0 }),
            r.wf(),
    {
        RetryEngine { gateway, max_tries, attempt: 0 }
    }

    /// A loop that may send `retry` times, nine when not given.
    pub fn with_default_tries(gateway: u32, retry: Option<u32>) -> (r: Self)
        ensures
            r == (RetryEngine {
                gateway,
                max_tries: match retry {
                    Some(n) => n,
                    None => DEFAULT_MAX_TRIES,
                },
                attempt: 0,
            }),
            r.wf(),
    {
        let max_tries = match retry {
            Some(n) => n,
            None => DEFAULT_MAX_TRIES,
        };
        RetryEngine::new(gateway, max_tries)
    }

    fn next_attempt(&mut self) -> (a: Action)
        requires
            old(self).wf(),
        ensures
            (*final(self), a) == advance(*old(self)),
            final(self).wf(),
    {
        if self.attempt < self.max_tries {
            self.attempt = self.attempt + 1;
            Action::Send { attempt: self.attempt, wait_ms: backoff_timeout_ms(self.attempt) }
        } else {
            Action::GiveUp
        }
    }

    /// The first action: the first send, or giving up at once when no
    /// attempt is allowed.
    pub fn start(&mut self) -> (a: Action)
        requires
            old(self).wf(),
        ensures
            (*final(self), a) == advance(*old(self)),
            final(self).wf(),
    {
        self.next_attempt()
    }

    /// The action that follows what the caller observed.
    pub fn on_event(&mut self, ev: Event) -> (a: Action)
        requires
            old(self).wf(),
        ensures
            (*final(self), a) == step(*old(self), ev),
            final(self).wf(),
    {
        match ev {
            Event::Datagram(source) => {
                if source == Some(self.gateway) {
                    Action::Deliver
                } else {
                    self.next_attempt()
                }
            },
            Event::SocketFailure => Action::Abort,
            Event::Timeout => self.next_attempt(),
            Event::WouldBlock => self.next_attempt(),
        }
    }
}

/// The actions that answer `k` timeouts in a row, and the state after them.
pub open spec fn run_timeouts(e: RetryEngine, k: nat) -> (RetryEngine, Seq<Action>)
    decreases k,
{
    if k == 0 {
        (e, Seq::empty())
    } else {
        let (next, a) = step(e, Event::Timeout);
        let (last, rest) = run_timeouts(next, (k - 1) as nat);
        (last, seq![a] + rest)
    }
}

/// A datagram whose source is not the gateway is never delivered, whatever
/// it holds: it is treated as a lost reply.
pub proof fn lemma_foreign_source_never_delivered(e: RetryEngine, source: Option<u32>)
    requires
        source != Some(e.gateway),
    ensures
        step(e, Event::Datagram(source)).1 != Action::Deliver,
        step(e, Event::Datagram(source)) == step(e, Event::Timeout),
{
}

proof fn lemma_run_timeouts_from(e: RetryEngine, k: nat)
    requires
        e.wf(),
        e.attempt + k == e.max_tries,
    ensures
        run_timeouts(e, k + 1).1.len() == k + 1,
        forall|i: int|
            0 <= i < k ==> #[trigger] run_timeouts(e, k + 1).1[i] == (Action::Send {
                attempt: (e.attempt + i + 1) as u32,
                wait_ms: capped_backoff_ms((e.attempt + i + 1) as nat),
            }),
        run_timeouts(e, k + 1).1[k as int] == Action::GiveUp,
    decreases k,
{
    if k > 0 {
        let next = step(e, Event::Timeout).0;
        lemma_run_timeouts_from(next, (k - 1) as nat);
        let acts = run_timeouts(e, k + 1).1;
        let rest = run_timeouts(next, k).1;
        assert(acts =~= seq![step(e, Event::Timeout).1] + rest);
        assert forall|i: int| 0 <= i < k implies #[trigger] acts[i] == (Action::Send {
            attempt: (e.attempt + i + 1) as u32,
            wait_ms: capped_backoff_ms((e.attempt + i + 1) as nat),
        }) by {
            if i > 0 {
                assert(acts[i] == rest[i - 1]);
            }
        }
    } else {
        let next = step(e, Event::Timeout).0;
        assert(run_timeouts(next, 0).1 =~= Seq::<Action>::empty());
        assert(run_timeouts(e, 1).1 =~= seq![Action::GiveUp]);
    }
}

/// With a gateway that never answers, the first action and the answers to
/// the next `max_tries` timeouts are exactly `max_tries` sends, attempt `n`
/// waiting `capped_backoff_ms(n)`, followed by giving up.
pub proof fn lemma_silent_gateway(gateway: u32, max_tries: u32)
    ensures
        ({
            let (e, first) = advance(RetryEngine { gateway, max_tries, attempt: 0 });
            let actions = seq![first] + run_timeouts(e, max_tries as nat).1;
            &&& actions.len() == max_tries + 1
            &&& forall|i: int|
                0 <= i < max_tries ==> #[trigger] actions[i] == (Action::Send {
                    attempt: (i + 1) as u32,
                    wait_ms: capped_backoff_ms((i + 1) as nat),
                })
            &&& actions[max_tries as int] == Action::GiveUp
        }),
{
    let e0 = RetryEngine { gateway, max_tries, attempt: 0 };
    lemma_run_timeouts_from(e0, max_tries as nat);
    let (e, first) = advance(e0);
    assert(run_timeouts(e0, max_tries as nat + 1) == (
        run_timeouts(e, max_tries as nat).0,
        seq![first] + run_timeouts(e, max_tries as nat).1,
    ));
}

/// Giving up is final: once every attempt is spent, further timeouts send
/// nothing.
pub proof fn lemma_give_up_is_final(e: RetryEngine)
    requires
        e.attempt == e.max_tries,
    ensures
        step(e, Event::Timeout) == (e, Action::GiveUp),
{
}

/// Attempt `n` waits exactly `250 * 2^n` ms for every attempt up to 56, the
/// last whose wait fits in 64 bits.
pub proof fn lemma_backoff_exact(n: nat)
    requires
        n <= 56,
    ensures
        capped_backoff_ms(n) == 250 * pow2(n),
{
    lemma2_to64();
    lemma_pow2_adds(32, 24);
    if n < 56 {
        lemma_pow2_strictly_increases(n, 56);
    }
}

} // verus!
