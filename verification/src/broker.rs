//! The host-sharing broker: the local concurrency limiter.
//!
//! Commands acquire a weighted permit before running locally; the sum of the
//! weights of all outstanding permits never exceeds the configured capacity.
//! A request that does not fit — or that arrives while earlier requests are
//! still waiting — is queued, and releases grant queued requests strictly in
//! first-in-first-out order. Blocking is the caller's affair: the broker is
//! the bookkeeping, and it tells the caller which queued requests a release
//! has granted.

use vstd::prelude::*;

verus! {

/// A weighted permit to run one local command. Permits are issued only by
/// [`HostSharingBroker`] and are consumed on release, so a permit cannot be
/// given back twice.
pub struct HostSharingPermit {
    weight: u64,
    id: Ghost<nat>,
}

impl HostSharingPermit {
    /// The weight this permit occupies of the broker's capacity.
    pub closed spec fn spec_weight(self) -> u64 {
        self.weight
    }

    /// The identity of this permit within its broker.
    pub closed spec fn spec_id(self) -> nat {
        self.id@
    }

    pub fn weight(&self) -> (r: u64)
        ensures
            r == self.spec_weight(),
    {
        self.weight
    }
}

/// The answer to a permit request: granted now, or queued behind earlier
/// requests under the returned ticket.
pub enum RequestOutcome {
    Granted(HostSharingPermit),
    Queued { ticket: u64 },
}

/// Sum of the weights in a sequence of `(identity, weight)` records.
pub open spec fn sum_weights(s: Seq<(nat, u64)>) -> int
    decreases s.len(),
{
    if s.len() == 0 {
        0
    } else {
        sum_weights(s.drop_last()) + s.last().1
    }
}

pub proof fn lemma_sum_weights_nonneg(s: Seq<(nat, u64)>)
    ensures
        sum_weights(s) >= 0,
    decreases s.len(),
{
    if s.len() > 0 {
        lemma_sum_weights_nonneg(s.drop_last());
    }
}

pub proof fn lemma_sum_weights_push(s: Seq<(nat, u64)>, e: (nat, u64))
    ensures
        sum_weights(s.push(e)) == sum_weights(s) + e.1,
{
    assert(s.push(e).drop_last() =~= s);
}

pub proof fn lemma_sum_weights_concat(a: Seq<(nat, u64)>, b: Seq<(nat, u64)>)
    ensures
        sum_weights(a + b) == sum_weights(a) + sum_weights(b),
    decreases b.len(),
{
    if b.len() == 0 {
        assert(a + b =~= a);
    } else {
        assert((a + b).drop_last() =~= a + b.drop_last());
        lemma_sum_weights_concat(a, b.drop_last());
    }
}

pub proof fn lemma_sum_weights_remove(s: Seq<(nat, u64)>, i: int)
    requires
        0 <= i < s.len(),
    ensures
        sum_weights(s.remove(i)) == sum_weights(s) - s[i].1,
{
    let prefix = s.subrange(0, i);
    let suffix = s.subrange(i + 1, s.len() as int);
    assert(s =~= prefix + seq![s[i]] + suffix);
    assert(s.remove(i) =~= prefix + suffix);
    lemma_sum_weights_concat(prefix + seq![s[i]], suffix);
    lemma_sum_weights_concat(prefix, seq![s[i]]);
    lemma_sum_weights_concat(prefix, suffix);
    assert(sum_weights(seq![s[i]]) == s[i].1) by {
        assert(seq![s[i]].len() == 1);
        assert(seq![s[i]].last() == s[i]);
        assert(seq![s[i]].drop_last() =~= Seq::<(nat, u64)>::empty());
        assert(sum_weights(Seq::<(nat, u64)>::empty()) == 0);
    };
}

/// Sum of the weights in a queue of `(ticket, weight)` records.
pub open spec fn sum_waiter_weights(s: Seq<(u64, u64)>) -> int
    decreases s.len(),
{
    if s.len() == 0 {
        0
    } else {
        sum_waiter_weights(s.drop_last()) + s.last().1
    }
}

pub proof fn lemma_sum_waiter_weights_push(s: Seq<(u64, u64)>, e: (u64, u64))
    ensures
        sum_waiter_weights(s.push(e)) == sum_waiter_weights(s) + e.1,
{
    assert(s.push(e).drop_last() =~= s);
}

/// The local concurrency limiter: a bounded pool of weighted permits and a
/// first-in-first-out queue of waiting requests.
pub struct HostSharingBroker {
    capacity: u64,
    in_use: u64,
    next_ticket: u64,
    waiters: Vec<(u64, u64)>,
    outstanding: Ghost<Seq<(nat, u64)>>,
    next_id: Ghost<nat>,
}

impl HostSharingBroker {
    /// The configured capacity.
    pub closed spec fn spec_capacity(self) -> u64 {
        self.capacity
    }

    /// The summed weight of all outstanding permits.
    pub closed spec fn spec_in_use(self) -> u64 {
        self.in_use
    }

    /// The queue of waiting requests, front first: `(ticket, weight)`.
    pub closed spec fn spec_waiters(self) -> Seq<(u64, u64)> {
        self.waiters@
    }

    /// The outstanding permits: `(identity, weight)`.
    pub closed spec fn spec_outstanding(self) -> Seq<(nat, u64)> {
        self.outstanding@
    }

    /// The ticket the next queued request will get.
    pub closed spec fn spec_next_ticket(self) -> u64 {
        self.next_ticket
    }

    /// A permit with this identity is outstanding.
    pub open spec fn spec_holds_id(self, id: nat) -> bool {
        exists|i: int|
            0 <= i < self.spec_outstanding().len() && self.spec_outstanding()[i].0 == id
    }

    /// This very permit — identity and weight — is outstanding.
    pub open spec fn spec_holds(self, p: HostSharingPermit) -> bool {
        exists|i: int|
            0 <= i < self.spec_outstanding().len() && self.spec_outstanding()[i] == (
            p.spec_id(),
            p.spec_weight(),
            )
    }

    /// The broker's invariant. The heart of it: the weights of the
    /// outstanding permits sum to `in_use`, which never exceeds the
    /// capacity. Identities are unique and tickets are issued in strictly
    /// increasing order, so a grant can be matched to its request.
    pub closed spec fn wf(self) -> bool {
        &&& self.in_use as int == sum_weights(self.outstanding@)
        &&& self.in_use <= self.capacity
        &&& forall|i: int, j: int|
            0 <= i < j < self.outstanding@.len() ==> self.outstanding@[i].0
                != self.outstanding@[j].0
        &&& forall|i: int|
            0 <= i < self.outstanding@.len() ==> self.outstanding@[i].0 < self.next_id@
        &&& forall|i: int|
            0 <= i < self.outstanding@.len() ==> self.outstanding@[i].1 <= self.capacity
        &&& forall|i: int, j: int|
            0 <= i < j < self.waiters@.len() ==> self.waiters@[i].0 < self.waiters@[j].0
        &&& forall|i: int| 0 <= i < self.waiters@.len() ==> self.waiters@[i].0 < self.next_ticket
        &&& forall|i: int| 0 <= i < self.waiters@.len() ==> self.waiters@[i].1 <= self.capacity
    }

    /// A broker with the given capacity, no outstanding permits and no
    /// waiting requests.
    pub fn new(capacity: u64) -> (r: HostSharingBroker)
        ensures
            r.wf(),
            r.spec_capacity() == capacity,
            r.spec_in_use() == 0,
            r.spec_outstanding().len() == 0,
            r.spec_waiters().len() == 0,
            r.spec_next_ticket() == 0,
    {
        HostSharingBroker {
            capacity,
            in_use: 0,
            next_ticket: 0,
            waiters: Vec::new(),
            outstanding: Ghost(Seq::empty()),
            next_id: Ghost(0),
        }
    }

    /// The weight a request effectively occupies: requests heavier than the
    /// whole capacity are clamped to it, so that every request can
    /// eventually be granted.
    pub open spec fn spec_effective_weight(self, weight: u64) -> u64 {
        if weight > self.spec_capacity() {
            self.spec_capacity()
        } else {
            weight
        }
    }

    /// Request a permit of the given weight. The request is granted at once
    /// exactly when no earlier request is still waiting and the effective
    /// weight fits into the remaining capacity; otherwise it is queued
    /// behind every earlier request, under a fresh ticket.
    pub fn request(&mut self, weight: u64) -> (r: RequestOutcome)
        requires
            old(self).wf(),
            old(self).spec_next_ticket() < u64::MAX,
        ensures
            final(self).wf(),
            final(self).spec_capacity() == old(self).spec_capacity(),
            ({
                let eff = old(self).spec_effective_weight(weight);
                if old(self).spec_waiters().len() == 0 && old(self).spec_in_use() + eff
                    <= old(self).spec_capacity() {
                    &&& r matches RequestOutcome::Granted(p) && p.spec_weight() == eff
                        && final(self).spec_holds(p) && !old(self).spec_holds_id(p.spec_id())
                    &&& final(self).spec_in_use() == old(self).spec_in_use() + eff
                    &&& final(self).spec_waiters() == old(self).spec_waiters()
                    &&& final(self).spec_outstanding().len() == old(self).spec_outstanding().len() + 1
                    &&& forall|i: int|
                        0 <= i < old(self).spec_outstanding().len() ==> final(self).spec_outstanding()[i] == old(self).spec_outstanding()[i]
                    &&& final(self).spec_next_ticket() == old(self).spec_next_ticket()
                } else {
                    &&& r matches RequestOutcome::Queued { ticket } && ticket == old(self).spec_next_ticket()
                    &&& final(self).spec_waiters() == old(self).spec_waiters().push(
                        (old(self).spec_next_ticket(), eff),
                    )
                    &&& final(self).spec_in_use() == old(self).spec_in_use()
                    &&& final(self).spec_outstanding() == old(self).spec_outstanding()
                    &&& final(self).spec_next_ticket() == old(self).spec_next_ticket() + 1
                }
            }),
    {
        let eff = if weight > self.capacity {
            self.capacity
        } else {
            weight
        };
        if self.waiters.len() == 0 && eff <= self.capacity - self.in_use {
            let permit = HostSharingPermit { weight: eff, id: Ghost(self.next_id@) };
            proof {
                lemma_sum_weights_push(self.outstanding@, (self.next_id@, eff));
            }
            self.outstanding = Ghost(self.outstanding@.push((self.next_id@, eff)));
            self.next_id = Ghost(self.next_id@ + 1);
            self.in_use = self.in_use + eff;
            let result = RequestOutcome::Granted(permit);
            assert(self.spec_outstanding()[self.spec_outstanding().len() - 1] == (
                permit.spec_id(),
                permit.spec_weight(),
            ));
            result
        } else {
            let ticket = self.next_ticket;
            self.waiters.push((ticket, eff));
            self.next_ticket = self.next_ticket + 1;
            RequestOutcome::Queued { ticket }
        }
    }

    /// Give a permit back and grant as many queued requests as now fit, in
    /// first-in-first-out order. The returned pairs associate each granted
    /// request's ticket with its new permit, in queue order. The released
    /// permit itself ceases to be outstanding — its identity is never
    /// granted again, so one permit frees capacity exactly once — while
    /// every other outstanding permit is untouched.
    pub fn release(&mut self, permit: HostSharingPermit) -> (granted: Vec<
        (u64, HostSharingPermit),
    >)
        requires
            old(self).wf(),
            old(self).spec_holds(permit),
        ensures
            final(self).wf(),
            final(self).spec_capacity() == old(self).spec_capacity(),
            final(self).spec_next_ticket() == old(self).spec_next_ticket(),
            !final(self).spec_holds_id(permit.spec_id()),
            granted@.len() <= old(self).spec_waiters().len(),
            final(self).spec_waiters() == old(self).spec_waiters().skip(granted@.len() as int),
            forall|i: int|
                0 <= i < granted@.len() ==> granted@[i].0 == old(self).spec_waiters()[i].0
                    && granted@[i].1.spec_weight() == old(self).spec_waiters()[i].1,
            forall|i: int| 0 <= i < granted@.len() ==> final(self).spec_holds(#[trigger] granted@[i].1),
            forall|i: int|
                0 <= i < old(self).spec_outstanding().len() && old(self).spec_outstanding()[i].0
                    != permit.spec_id() ==> exists|j: int|
                    0 <= j < final(self).spec_outstanding().len() && final(self).spec_outstanding()[j] == old(self).spec_outstanding()[i],
            final(self).spec_in_use() as int == old(self).spec_in_use() - permit.spec_weight()
                + sum_waiter_weights(old(self).spec_waiters().take(granted@.len() as int)),
            final(self).spec_waiters().len() > 0 ==> final(self).spec_in_use() + final(self).spec_waiters()[0].1 > final(self).spec_capacity(),
    {
        let ghost s0 = self.outstanding@;
        let ghost idx = choose|i: int|
            0 <= i < self.outstanding@.len() && self.outstanding@[i] == (
            permit.spec_id(),
            permit.spec_weight(),
            );
        proof {
            lemma_sum_weights_remove(self.outstanding@, idx);
            lemma_sum_weights_nonneg(self.outstanding@.remove(idx));
            s0.remove_ensures(idx);
        }
        self.outstanding = Ghost(self.outstanding@.remove(idx));
        self.in_use = self.in_use - permit.weight;
        let ghost out0 = self.outstanding@;
        let ghost waiters0 = self.waiters@;
        let ghost nid0 = self.next_id@;
        let ghost base_in_use = self.in_use as int;
        let mut granted: Vec<(u64, HostSharingPermit)> = Vec::new();
        let mut done = false;
        while !done
            invariant
                self.wf(),
                self.capacity == old(self).spec_capacity(),
                self.next_ticket == old(self).spec_next_ticket(),
                granted@.len() <= waiters0.len(),
                self.waiters@ == waiters0.skip(granted@.len() as int),
                forall|i: int|
                    0 <= i < granted@.len() ==> granted@[i].0 == waiters0[i].0
                        && granted@[i].1.spec_weight() == waiters0[i].1,
                self.outstanding@.len() == out0.len() + granted@.len(),
                forall|i: int| 0 <= i < out0.len() ==> self.outstanding@[i] == out0[i],
                forall|i: int|
                    0 <= i < granted@.len() ==> self.outstanding@[out0.len() + i] == (
                    granted@[i].1.spec_id(),
                    granted@[i].1.spec_weight(),
                    ),
                self.next_id@ >= nid0,
                self.in_use as int == base_in_use + sum_waiter_weights(
                    waiters0.take(granted@.len() as int),
                ),
                forall|i: int|
                    out0.len() <= i < self.outstanding@.len() ==> self.outstanding@[i].0 >= nid0,
                done ==> self.waiters@.len() == 0 || self.waiters@[0].1 > self.capacity
                    - self.in_use,
            decreases self.waiters@.len() + (if done { 0int } else { 1int }),
        {
            if self.waiters.len() == 0 {
                done = true;
            } else {
                let head_weight = self.waiters[0].1;
                if head_weight > self.capacity - self.in_use {
                    done = true;
                } else {
                    let ghost waiters_before = self.waiters@;
                    let (ticket, w) = self.waiters.remove(0);
                    let new_permit = HostSharingPermit { weight: w, id: Ghost(self.next_id@) };
                    proof {
                        lemma_sum_weights_push(self.outstanding@, (self.next_id@, w));
                        waiters_before.remove_ensures(0);
                    }
                    self.outstanding = Ghost(self.outstanding@.push((self.next_id@, w)));
                    self.next_id = Ghost(self.next_id@ + 1);
                    self.in_use = self.in_use + w;
                    granted.push((ticket, new_permit));
                    proof {
                        assert(self.waiters@ =~= waiters0.skip(granted@.len() as int));
                        let k = granted@.len() as int;
                        assert(waiters0.take(k).drop_last() =~= waiters0.take(k - 1));
                        assert(waiters0.take(k).last() == waiters0[k - 1]);
                    }
                }
            }
        }
        proof {
            s0.remove_ensures(idx);
            assert forall|i: int| 0 <= i < granted@.len() implies self.spec_holds(
                #[trigger] granted@[i].1,
            ) by {
                assert(self.spec_outstanding()[out0.len() + i] == (
                    granted@[i].1.spec_id(),
                    granted@[i].1.spec_weight(),
                ));
            };
            assert forall|i: int|
                0 <= i < s0.len() && s0[i].0 != permit.spec_id() implies exists|j: int|
                0 <= j < self.spec_outstanding().len() && self.spec_outstanding()[j] == s0[i] by {
                if i < idx {
                    assert(self.spec_outstanding()[i] == out0[i]);
                    assert(out0[i] == s0[i]);
                } else {
                    assert(s0[idx] == (permit.spec_id(), permit.spec_weight()));
                    assert(i > idx);
                    assert(self.spec_outstanding()[i - 1] == out0[i - 1]);
                    assert(out0[i - 1] == s0[i]);
                }
            };
            assert(!self.spec_holds_id(permit.spec_id())) by {
                assert(permit.spec_id() < nid0) by {
                    assert(s0[idx].0 == permit.spec_id());
                };
                assert forall|j: int|
                    0 <= j < self.spec_outstanding().len() implies self.spec_outstanding()[j].0
                    != permit.spec_id() by {
                    if j < out0.len() {
                        if j < idx {
                            assert(self.outstanding@[j] == out0[j]);
                            assert(out0[j] == s0[j]);
                            assert(s0[j].0 != s0[idx].0);
                        } else {
                            assert(self.outstanding@[j] == out0[j]);
                            assert(out0[j] == s0[j + 1]);
                            assert(s0[j + 1].0 != s0[idx].0);
                        }
                    } else {
                        assert(self.outstanding@[j].0 >= nid0);
                    }
                };
            };
        }
        granted
    }
}

} // verus!
