//! Reaching the earbuds: which known address is theirs, the request that
//! asks them for their battery report, and when to retry, wait or give up
//! while opening the channel to them.
use vstd::prelude::*;

verus! {

/// RFCOMM channel on which the earbuds answer battery requests.
pub const EAR_CHANNEL: u8 = 15;

/// Number of connection attempts before giving up.
pub const RETRY: u64 = 3;

/// Backoff after the n-th failed attempt is n times this many milliseconds.
pub const BACKOFF_STEP_MS: u64 = 500;

/// Why a connection attempt failed.
#[derive(Debug, Clone, Copy, PartialEq, Eq, Structural)]
pub enum ConnectError {
    /// No Bluetooth adapter, or it could not be powered on.
    AdapterUnavailable,
    /// No known address carries the earbuds' vendor prefix.
    DeviceNotFound,
    /// The channel to the earbuds could not be opened.
    ConnectionFailed,
}

/// The vendor prefix of the earbuds' hardware address.
pub open spec fn ear_prefix() -> Seq<u8> {
    seq![0x2Cu8, 0xBEu8, 0xEBu8]
}

/// The battery request frame.
pub open spec fn battery_request_spec() -> Seq<u8> {
    seq![0x55u8, 0x60u8, 0x01u8, 0x07u8, 0xC0u8, 0x00u8, 0x00u8, 0x01u8, 0xACu8, 0xDFu8]
}

/// The first three bytes of the earbuds' hardware address.
pub fn ear_address() -> (r: [u8; 3])
    ensures
        r@ == ear_prefix(),
{
    let r = [0x2Cu8, 0xBEu8, 0xEBu8];
    assert(r@ =~= ear_prefix());
    r
}

/// The frame that asks the earbuds for the battery of every unit.
pub fn battery_request() -> (r: [u8; 10])
    ensures
        r@ == battery_request_spec(),
{
    let r = [0x55u8, 0x60u8, 0x01u8, 0x07u8, 0xC0u8, 0x00u8, 0x00u8, 0x01u8, 0xACu8, 0xDFu8];
    assert(r@ =~= battery_request_spec());
    r
}

/// Whether an address begins with the three bytes of `prefix`.
pub open spec fn has_prefix(addr: Seq<u8>, prefix: Seq<u8>) -> bool {
    &&& addr[0] == prefix[0]
    &&& addr[1] == prefix[1]
    &&& addr[2] == prefix[2]
}

/// The first of `addresses` that begins with `prefix`.
pub fn find_address(addresses: &[[u8; 6]], prefix: [u8; 3]) -> (r: Result<[u8; 6], ConnectError>)
    ensures
        r matches Ok(a) ==> exists|i: int|
            0 <= i < addresses@.len() && addresses@[i] == a && has_prefix(a@, prefix@) && (
            forall|j: int| 0 <= j < i ==> !has_prefix(#[trigger] addresses@[j]@, prefix@)),
        r matches Err(e) ==> e == ConnectError::DeviceNotFound && forall|j: int|
            0 <= j < addresses@.len() ==> !has_prefix(#[trigger] addresses@[j]@, prefix@),
{
    let mut i: usize = 0;
    while i < addresses.len()
        invariant
            i <= addresses@.len(),
            forall|j: int| 0 <= j < i ==> !has_prefix(#[trigger] addresses@[j]@, prefix@),
        decreases addresses@.len() - i,
    {
        let a = addresses[i];
        if a[0] == prefix[0] && a[1] == prefix[1] && a[2] == prefix[2] {
            return Ok(a);
        }
        i = i + 1;
    }
    Err(ConnectError::DeviceNotFound)
}

/// What the caller does after a connection attempt.
#[derive(Debug, Clone, Copy, PartialEq, Eq, Structural)]
pub enum Step {
    /// The channel is open: use it.
    Connected,
    /// Wait this many milliseconds, then attempt again.
    Backoff(u64),
    /// The attempts are spent: connecting has failed for good.
    GiveUp,
}

/// The step after an attempt that follows `failures` failed ones.
pub open spec fn step_spec(failures: int, connected: bool) -> Step {
    if connected {
        Step::Connected
    } else if failures + 1 < RETRY {
        Step::Backoff(((failures + 1) * BACKOFF_STEP_MS) as u64)
    } else {
        Step::GiveUp
    }
}

/// The course of a retry sequence, from `failures` failed attempts on, when
/// the attempts turn out as `outcomes` says: the waits taken, and the index
/// in `outcomes` of the attempt that connected, if any did.
pub open spec fn run(failures: int, outcomes: Seq<bool>) -> (Seq<u64>, Option<int>)
    decreases outcomes.len(),
{
    if outcomes.len() == 0 || failures >= RETRY {
        (seq![], None)
    } else {
        match step_spec(failures, outcomes[0]) {
            Step::Connected => (seq![], Some(0)),
            Step::GiveUp => (seq![], None),
            Step::Backoff(ms) => {
                let rest = run(failures + 1, outcomes.drop_first());
                (seq![ms] + rest.0, match rest.1 {
                    Some(k) => Some(k + 1),
                    None => None,
                })
            },
        }
    }
}

/// Bounded retry with linear backoff around opening the channel.
///
/// The caller makes an attempt, reports whether it connected, and follows
/// the returned step.
#[derive(Debug, Clone, Copy, PartialEq, Eq, Structural)]
pub struct Retry {
    /// Attempts that failed so far.
    pub failures: u64,
}

impl Retry {
    /// Whether another attempt may be made.
    pub open spec fn active(self) -> bool {
        self.failures < RETRY
    }

    /// A sequence in which no attempt has been made.
    pub fn new() -> (r: Retry)
        ensures
            r.failures == 0,
            r.active(),
    {
        Retry { failures: 0 }
    }

    /// Whether another attempt may be made.
    pub fn can_attempt(&self) -> (r: bool)
        ensures
            r == self.active(),
    {
        self.failures < RETRY
    }

    /// Records how an attempt turned out and says what comes next.
    pub fn record(&mut self, connected: bool) -> (r: Step)
        requires
            old(self).active(),
        ensures
            r == step_spec(old(self).failures as int, connected),
            final(self).failures == if connected {
                old(self).failures as int
            } else {
                old(self).failures + 1
            },
            final(self).active() <==> r is Backoff || r is Connected,
    {
        if connected {
            Step::Connected
        } else {
            self.failures = self.failures + 1;
            if self.failures < RETRY {
                Step::Backoff(self.failures * BACKOFF_STEP_MS)
            } else {
                Step::GiveUp
            }
        }
    }
}

/// When the first two attempts fail and the third connects, the channel of
/// the third attempt is used, after waits of 500 and 1000 milliseconds.
pub proof fn lemma_third_attempt_connects(outcomes: Seq<bool>)
    requires
        outcomes.len() >= 3,
        !outcomes[0],
        !outcomes[1],
        outcomes[2],
    ensures
        run(0, outcomes) == (seq![500u64, 1000u64], Some(2int)),
{
    reveal_with_fuel(run, 4);
    assert(outcomes.drop_first().drop_first()[0] == outcomes[2]);
    assert(seq![500u64] + (seq![1000u64] + Seq::<u64>::empty()) =~= seq![500u64, 1000u64]);
}

/// When all three attempts fail, no channel is had: the sequence gives up
/// after waits of 500 and 1000 milliseconds.
pub proof fn lemma_three_failures_give_up(outcomes: Seq<bool>)
    requires
        outcomes.len() >= 3,
        !outcomes[0],
        !outcomes[1],
        !outcomes[2],
    ensures
        run(0, outcomes) == (seq![500u64, 1000u64], None::<int>),
{
    reveal_with_fuel(run, 4);
    assert(outcomes.drop_first().drop_first()[0] == outcomes[2]);
    assert(seq![500u64] + (seq![1000u64] + Seq::<u64>::empty()) =~= seq![500u64, 1000u64]);
}

/// Whatever the attempts turn out to be, a retry sequence takes at most
/// `RETRY` attempts: the n-th wait lasts n times `BACKOFF_STEP_MS`, the
/// attempt that is used is the first that connected, and one is used
/// whenever one of the attempts allowed connects.
pub proof fn lemma_run_bounded(failures: int, outcomes: Seq<bool>)
    requires
        0 <= failures <= RETRY,
    ensures
        run(failures, outcomes).0.len() + failures < RETRY || run(failures, outcomes).0.len() == 0,
        forall|k: int|
            0 <= k < run(failures, outcomes).0.len() ==> #[trigger] run(failures, outcomes).0[k]
                == (failures + k + 1) * BACKOFF_STEP_MS,
        run(failures, outcomes).1 matches Some(i) ==> {
            &&& 0 <= i < RETRY - failures
            &&& i < outcomes.len()
            &&& outcomes[i]
            &&& forall|j: int| 0 <= j < i ==> !outcomes[j]
        },
        (exists|i: int| 0 <= i < RETRY - failures && i < outcomes.len() && #[trigger] outcomes[i])
            ==> run(failures, outcomes).1 is Some,
    decreases outcomes.len(),
{
    if outcomes.len() == 0 || failures >= RETRY {
    } else if outcomes[0] {
    } else if failures + 1 >= RETRY {
        assert forall|i: int|
            0 <= i < RETRY - failures && i < outcomes.len() implies !outcomes[i] by {
            if outcomes[i] {
                assert(i == 0);
            }
        };
    } else {
        let rest = outcomes.drop_first();
        lemma_run_bounded(failures + 1, rest);
        let r = run(failures + 1, rest);
        let w = seq![((failures + 1) * BACKOFF_STEP_MS) as u64] + r.0;
        assert(run(failures, outcomes).0 == w);
        assert forall|k: int| 0 <= k < w.len() implies #[trigger] w[k] == (failures + k + 1)
            * BACKOFF_STEP_MS by {
            if k > 0 {
                assert(w[k] == r.0[k - 1]);
            }
        };
        if let Some(i) = r.1 {
            assert forall|j: int| 0 <= j < i + 1 implies !outcomes[j] by {
                if j > 0 {
                    assert(outcomes[j] == rest[j - 1]);
                }
            };
            assert(outcomes[i + 1] == rest[i]);
        }
        if exists|i: int| 0 <= i < RETRY - failures && i < outcomes.len() && #[trigger] outcomes[i] {
            let i = choose|i: int| 0 <= i < RETRY - failures && i < outcomes.len() && #[trigger] outcomes[i];
            assert(i != 0);
            assert(rest[i - 1] == outcomes[i]);
        }
    }
}

} // verus!
