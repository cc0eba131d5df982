use vstd::prelude::*;
use vstd::string::*;
use rand::Rng;

verus! {

/// A number drawn uniformly from all `u16` values by the thread-local
/// generator of `rand` (`Rng::random`); nothing is promised of it.
#[verifier::external_body]
fn random_u16() -> (r: u16) {
    rand::rng().random::<u16>()
}

/// The position of the first `.` in a byte string.
pub open spec fn first_dot(b: Seq<u8>) -> Option<int> {
    if exists|i: int| 0 <= i < b.len() && b[i] == 0x2e {
        Some(choose|i: int| 0 <= i < b.len() && b[i] == 0x2e && forall|j: int| 0 <= j < i ==> b[j] != 0x2e)
    } else {
        None
    }
}

/// A host name as DNS writes it: each `.`-separated label preceded by its
/// length (modulo 256), without the final empty label.
pub open spec fn dns_labels(b: Seq<u8>) -> Seq<u8>
    decreases b.len(),
{
    match first_dot(b) {
        None => seq![(b.len() % 256) as u8] + b,
        Some(i) => if 0 <= i < b.len() {
            seq![(i % 256) as u8] + b.subrange(0, i) + dns_labels(b.subrange(i + 1, b.len() as int))
        } else {
            Seq::empty()
        },
    }
}

/// A DNS query for the A record of a host: the transaction id, a standard
/// query with one question, the encoded name, type A and class IN.
pub open spec fn dns_query(hostname: Seq<u8>, txid: u16) -> Seq<u8> {
    seq![(txid / 256) as u8, (txid % 256) as u8, 0x01, 0x00, 0x00, 0x01, 0x00, 0x00, 0x00, 0x00, 0x00, 0x00]
        + dns_labels(hostname) + seq![0x00, 0x00, 0x01, 0x00, 0x01]
}

proof fn lemma_first_dot_found(b: Seq<u8>, i: int)
    requires
        0 <= i < b.len(),
        b[i] == 0x2e,
        forall|j: int| 0 <= j < i ==> b[j] != 0x2e,
    ensures
        first_dot(b) == Some(i),
{
    let c = choose|k: int| 0 <= k < b.len() && b[k] == 0x2e && forall|j: int| 0 <= j < k ==> b[j] != 0x2e;
    if c < i {
        assert(b[c] != 0x2e);
    } else if c > i {
        assert(b[i] != 0x2e);
    }
}

fn find_dot(b: &[u8]) -> (r: usize)
    ensures
        r <= b@.len(),
        r < b@.len() ==> first_dot(b@) == Some(r as int),
        r == b@.len() ==> first_dot(b@) is None,
{
    let n = b.len();
    let mut i: usize = 0;
    while i < n && b[i] != 0x2e
        invariant
            n == b@.len(),
            i <= n,
            forall|j: int| 0 <= j < i ==> b@[j] != 0x2e,
        decreases n - i,
    {
        i = i + 1;
    }
    proof {
        if i < n {
            lemma_first_dot_found(b@, i as int);
        } else {
            assert(!exists|m: int| 0 <= m < b@.len() && b@[m] == 0x2e);
        }
    }
    i
}

fn append_bytes(out: &mut Vec<u8>, b: &[u8], to: usize)
    requires
        to <= b@.len(),
    ensures
        final(out)@ == old(out)@ + b@.subrange(0, to as int),
{
    let mut k: usize = 0;
    while k < to
        invariant
            to <= b@.len(),
            k <= to,
            out@ == old(out)@ + b@.subrange(0, k as int),
        decreases to - k,
    {
        out.push(b[k]);
        k = k + 1;
        assert(out@ =~= old(out)@ + b@.subrange(0, k as int));
    }
}

proof fn lemma_dns_labels_step(b: Seq<u8>, i: int)
    requires
        0 <= i <= b.len(),
        i < b.len() ==> first_dot(b) == Some(i),
        i == b.len() ==> first_dot(b) is None,
    ensures
        i == b.len() ==> dns_labels(b) == seq![(i % 256) as u8] + b.subrange(0, i),
        i < b.len() ==> dns_labels(b) == seq![(i % 256) as u8] + b.subrange(0, i) + dns_labels(b.subrange(i + 1, b.len() as int)),
{
    if i == b.len() {
        assert(b.subrange(0, i) =~= b);
    }
}

fn append_labels(out: &mut Vec<u8>, b: &[u8])
    ensures
        final(out)@ == old(out)@ + dns_labels(b@),
    decreases b@.len(),
{
    let n = b.len();
    let i = find_dot(b);
    proof {
        lemma_dns_labels_step(b@, i as int);
    }
    let ghost head = seq![(i % 256) as u8] + b@.subrange(0, i as int);
    out.push((i % 256) as u8);
    append_bytes(out, b, i);
    assert(out@ =~= old(out)@ + head);
    if i < n {
        let rest = slice_from(b, i + 1);
        append_labels(out, rest);
        assert(out@ =~= old(out)@ + head + dns_labels(b@.subrange(i as int + 1, n as int)));
    }
}

fn slice_from(b: &[u8], from: usize) -> (r: &[u8])
    requires
        from <= b@.len(),
    ensures
        r@ == b@.subrange(from as int, b@.len() as int),
{
    let n = b.len();
    let r = &b[from..n];
    assert(r@ =~= b@.subrange(from as int, n as int));
    r
}

/// Builds a DNS query for the A record of a host with the given
/// transaction id.
pub fn build_dns_query_with_id(hostname: &str, txid: u16) -> (r: Vec<u8>)
    ensures
        r@ == dns_query(hostname.spec_bytes(), txid),
{
    let mut q: Vec<u8> = Vec::new();
    q.push((txid / 256) as u8);
    q.push((txid % 256) as u8);
    q.push(0x01);
    q.push(0x00);
    q.push(0x00);
    q.push(0x01);
    q.push(0x00);
    q.push(0x00);
    q.push(0x00);
    q.push(0x00);
    q.push(0x00);
    q.push(0x00);
    let ghost header = q@;
    append_labels(&mut q, hostname.as_bytes());
    q.push(0x00);
    q.push(0x00);
    q.push(0x01);
    q.push(0x00);
    q.push(0x01);
    assert(q@ =~= dns_query(hostname.spec_bytes(), txid));
    q
}

/// Builds a DNS query for the A record of a host, with a random
/// transaction id so that answers to quick retries are not mixed up.
pub fn build_dns_query(hostname: &str) -> (r: Vec<u8>)
    ensures
        exists|txid: u16| r@ == #[trigger] dns_query(hostname.spec_bytes(), txid),
{
    let txid = random_u16();
    build_dns_query_with_id(hostname, txid)
}

/// What taking in the outcome of a probe does to a check: the next check
/// and the verdict, if one is reached.
pub open spec fn spec_on_probe(c: ConnectivityCheck, answered: bool) -> (ConnectivityCheck, Option<bool>) {
    if answered {
        (c, Some(true))
    } else if c.attempt < c.retries {
        (ConnectivityCheck { attempt: (c.attempt + 1) as u32, retries: c.retries }, None)
    } else {
        (c, Some(false))
    }
}

/// The verdict of a check fed the outcomes of successive probes, with the
/// number of probes taken in; no verdict if the outcomes run out first.
pub open spec fn probe_run(c: ConnectivityCheck, answers: Seq<bool>) -> (Option<bool>, nat)
    decreases answers.len(),
{
    if answers.len() == 0 {
        (None, 0)
    } else {
        let (next, verdict) = spec_on_probe(c, answers[0]);
        match verdict {
            Some(b) => (Some(b), 1),
            None => {
                let (v, k) = probe_run(next, answers.skip(1));
                (v, k + 1)
            },
        }
    }
}

/// The position of the first answered probe among the first `n`, if any.
pub open spec fn first_answered(answers: Seq<bool>, n: nat) -> Option<nat>
    decreases n,
{
    if n == 0 || answers.len() == 0 {
        None
    } else if answers[0] {
        Some(0)
    } else {
        match first_answered(answers.skip(1), (n - 1) as nat) {
            Some(i) => Some(i + 1),
            None => None,
        }
    }
}

/// A check that may retry `retries` times, fed at least `retries + 1`
/// probe outcomes, finds connectivity exactly when one of the first
/// `retries + 1` probes was answered; it stops at the first answered probe,
/// and otherwise takes in `retries + 1` probes. A failed probe never stops
/// the retries early.
pub proof fn law_retries_until_first_answer(retries: u32, answers: Seq<bool>)
    requires
        answers.len() >= retries + 1,
    ensures
        probe_run(ConnectivityCheck { attempt: 0, retries }, answers) == match first_answered(answers, (retries + 1) as nat) {
            Some(i) => (Some(true), i + 1),
            None => (Some(false), (retries + 1) as nat),
        },
{
    lemma_probe_run(ConnectivityCheck { attempt: 0, retries }, answers);
}

proof fn lemma_probe_run(c: ConnectivityCheck, answers: Seq<bool>)
    requires
        c.attempt <= c.retries,
        answers.len() >= c.retries - c.attempt + 1,
    ensures
        probe_run(c, answers) == match first_answered(answers, (c.retries - c.attempt + 1) as nat) {
            Some(i) => (Some(true), i + 1),
            None => (Some(false), (c.retries - c.attempt + 1) as nat),
        },
    decreases c.retries - c.attempt,
{
    let n = (c.retries - c.attempt + 1) as nat;
    if !answers[0] {
        assert(first_answered(answers, n) == match first_answered(answers.skip(1), (n - 1) as nat) {
            Some(i) => Some(i + 1),
            None => None::<nat>,
        });
        if c.attempt < c.retries {
            let next = ConnectivityCheck { attempt: (c.attempt + 1) as u32, retries: c.retries };
            lemma_probe_run(next, answers.skip(1));
        } else {
            assert(first_answered(answers.skip(1), 0) is None);
        }
    }
}

/// The attempts of a connectivity check: the first one and up to
/// `retries` more.
#[derive(Debug, Clone, Copy, PartialEq, Eq, Structural)]
pub struct ConnectivityCheck {
    pub attempt: u32,
    pub retries: u32,
}

impl ConnectivityCheck {
    /// A check that tries once and then up to `retries` more times.
    pub fn new(retries: u32) -> (r: Self)
        ensures
            r.attempt == 0,
            r.retries == retries,
    {
        ConnectivityCheck { attempt: 0, retries }
    }

    /// Takes in the outcome of a probe: an answer proves connectivity;
    /// otherwise the check tries again while attempts are left, and fails
    /// after the last. `None` means: probe again.
    pub fn on_probe(&mut self, answered: bool) -> (r: Option<bool>)
        requires
            old(self).attempt <= old(self).retries,
        ensures
            answered ==> r == Some(true) && *final(self) == *old(self),
            !answered && old(self).attempt < old(self).retries ==> r is None && final(self).attempt == old(self).attempt + 1
                && final(self).retries == old(self).retries,
            !answered && old(self).attempt == old(self).retries ==> r == Some(false) && *final(self) == *old(self),
            (*final(self), r) == spec_on_probe(*old(self), answered),
            final(self).attempt <= final(self).retries,
    {
        if answered {
            return Some(true);
        }
        if self.attempt < self.retries {
            self.attempt = self.attempt + 1;
            None
        } else {
            Some(false)
        }
    }
}

} // verus!
