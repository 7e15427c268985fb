//! The connection pool: a bounded idle collection, a round-robin endpoint
//! cursor, and the count of every handle it has issued.
//!
//! All pool state lives behind one owner; the driver serializes access to
//! it (one coarse lock) and keeps every network round trip outside the
//! critical section.  Growth — which must open transports, an operation
//! this crate does not perform — is a step machine: the pool says which
//! endpoint to try next, the driver reports back whether the transport
//! opened, and the bookkeeping in between is verified.

use vstd::prelude::*;

use vstd::arithmetic::div_mod::lemma_fundamental_div_mod;
use vstd::arithmetic::div_mod::lemma_fundamental_div_mod_converse;
use vstd::arithmetic::div_mod::lemma_mod_pos_bound;
use vstd::arithmetic::div_mod::lemma_small_mod;

use crate::connection::Connection;
use crate::graph_types::ErrorCode;
use crate::pool_config::PoolConfig;
use crate::text;

verus! {

/// The abstract state of a pool: what the contracts and the laws speak of.
pub ghost struct PoolView {
    /// Idle handles, in return order: the back is reused first.
    pub idle: Seq<Connection>,
    /// The configuration the pool was built from.
    pub config: PoolConfig,
    /// The round-robin endpoint cursor.
    pub cursor: int,
    /// Handles issued and still accounted for: idle ones, and every handle
    /// currently out with a session.
    pub conns_count: int,
    /// The number the next issued handle will carry.
    pub next_conn_id: int,
}

/// How many idle handles the pool holds.
pub open spec fn spec_idle_count(v: PoolView) -> int {
    v.idle.len() as int
}

/// How many issued handles are out of the pool (borrowed by sessions, or
/// lost to a failed authentication).
pub open spec fn spec_borrowed_count(v: PoolView) -> int {
    v.conns_count - v.idle.len()
}

/// Well-formedness of a pool: the configured bounds are ordered, at least
/// one endpoint is configured, the cursor sits inside (or just past) the
/// address list, and the issued-handle count never exceeds the cap.
pub open spec fn pool_wf(v: PoolView) -> bool {
    &&& v.config.min_connection_pool_size <= v.config.max_connection_pool_size
    &&& v.config.addresses@.len() >= 1
    &&& 0 <= v.cursor <= v.config.addresses@.len()
    &&& v.idle.len() <= v.conns_count
    &&& v.conns_count <= v.config.max_connection_pool_size
    &&& 0 <= v.next_conn_id
}

/// Two configurations that hold the same values.
pub open spec fn config_matches(c: PoolConfig, d: PoolConfig) -> bool {
    &&& c.timeout == d.timeout
    &&& c.idle_time == d.idle_time
    &&& c.max_connection_pool_size == d.max_connection_pool_size
    &&& c.min_connection_pool_size == d.min_connection_pool_size
    &&& c.addresses@ == d.addresses@
    &&& c.username == d.username
    &&& c.password == d.password
}

/// The index the endpoint cursor hands out next: itself, or zero once it
/// has run past the end of the address list.
pub open spec fn spec_cursor_index(c: int, len: int) -> int {
    if c >= len {
        0
    } else {
        c
    }
}

/// The index the cursor hands out on its `k`-th call after standing at
/// `c0`: every call advances the cursor by one and wraps it at `len`.
pub open spec fn nth_grow_index(c0: int, k: nat, len: int) -> int
    decreases k,
{
    if k == 0 {
        spec_cursor_index(c0, len)
    } else {
        spec_cursor_index(nth_grow_index(c0, (k - 1) as nat, len) + 1, len)
    }
}

/// The state of one growth run: how many connections it set out to add,
/// how many it has added, how many attempts it has spent against its
/// attempt budget, and — between a `grow_next` and the report of its
/// outcome — which address index is being tried.
pub struct Growth {
    /// How many connections this run set out to add.
    pub inc: u32,
    /// How many connections this run has added so far.
    pub count: u32,
    /// How many attempts have been issued.
    pub loop_count: usize,
    /// The attempt budget: `inc` times the number of configured
    /// endpoints.  One further attempt past the budget is allowed, after
    /// which the run stops rather than retry without bound.
    pub limit: usize,
    /// The address index handed out by `grow_next` and not yet resolved
    /// by `grow_opened` or `failed`.
    pub pending: Option<usize>,
}

/// Well-formedness of a growth run against the pool it grows.
pub open spec fn growth_wf(g: Growth, v: PoolView) -> bool {
    &&& 1 <= g.inc
    &&& g.count <= g.inc
    &&& g.count <= g.loop_count
    &&& g.limit == g.inc * v.config.addresses@.len()
    &&& g.limit < usize::MAX
    &&& g.loop_count <= g.limit + 1
    &&& match g.pending {
        Some(idx) => idx < v.config.addresses@.len() && g.count < g.inc && g.count < g.loop_count,
        None => true,
    }
}

/// Whether a growth run issues another attempt: it still wants more
/// connections, the pool is under its cap, and the attempt budget is not
/// spent.
pub open spec fn grow_should_try(v: PoolView, g: Growth) -> bool {
    &&& g.count < g.inc
    &&& v.conns_count < v.config.max_connection_pool_size
    &&& g.loop_count <= g.limit
}

impl Growth {
    /// Report that the attempt handed out by the last `grow_next` failed
    /// to open a transport.  The attempt stays spent; nothing else
    /// changes, and the run carries on.
    pub fn failed(&mut self)
        requires
            old(self).pending is Some,
        ensures
            *final(self) == (Growth { pending: None, ..*old(self) }),
    {
        self.pending = None;
    }
}

/// Whether the `k`-th transport-open attempt of a growth run succeeds,
/// read off a script of attempt outcomes; an attempt past the end of the
/// script fails.
pub open spec fn outcome_at(outcomes: Seq<bool>, k: int) -> bool {
    0 <= k < outcomes.len() && outcomes[k]
}

/// A script under which every attempt a run of up to `inc` successes can
/// issue succeeds: every endpoint reachable, and the script long enough.
pub open spec fn spec_all_succeed(outcomes: Seq<bool>, inc: u32) -> bool {
    outcomes.len() >= inc && (forall|k: int| 0 <= k < outcomes.len() ==> outcomes[k])
}

/// A script under which every attempt fails: no endpoint reachable.
pub open spec fn spec_all_fail(outcomes: Seq<bool>) -> bool {
    forall|k: int| 0 <= k < outcomes.len() ==> !outcomes[k]
}

/// Room left under the cap: how many more handles the pool may issue.
pub open spec fn spec_cap_room(v: PoolView) -> int {
    v.config.max_connection_pool_size - v.conns_count
}

/// How many connections a growth pass of `inc` adds when every attempt
/// succeeds: all it asked for, or what the cap still allows.
pub open spec fn spec_grow_target(v: PoolView, inc: u32) -> int {
    if inc as int <= spec_cap_room(v) {
        inc as int
    } else {
        spec_cap_room(v)
    }
}

/// The pool of connections to the graph service.  Safe for shared use when
/// the caller serializes access to it; every operation here is one
/// critical section, and none of them performs I/O.
#[allow(non_camel_case_types)]
pub struct ConnectionPool_nebula {
    /// The idle connections; the back is the most recently returned.
    conns: Vec<Connection>,
    /// The configuration; immutable for the pool's lifetime.
    config: PoolConfig,
    /// Address cursor.
    cursor: usize,
    /// The total count of accounted connections, those held by sessions
    /// included.
    conns_count: usize,
    /// The id the next issued connection will carry.
    next_conn_id: u64,
}

impl View for ConnectionPool_nebula {
    type V = PoolView;

    closed spec fn view(&self) -> PoolView {
        PoolView {
            idle: self.conns@,
            config: self.config,
            cursor: self.cursor as int,
            conns_count: self.conns_count as int,
            next_conn_id: self.next_conn_id as int,
        }
    }
}

impl ConnectionPool_nebula {
    /// Construct a pool from a configuration.  A configuration whose
    /// bounds are out of order is a programmer error, not a runtime
    /// condition: callers must establish `min <= max` (and name at least
    /// one endpoint) before a pool can exist, and the bounds are taken
    /// over unchanged — never clamped.  The pool starts empty; eager
    /// growth to the minimum size is a separate, I/O-bound step.
    pub fn new(conf: &PoolConfig) -> (r: Self)
        requires
            conf.min_connection_pool_size <= conf.max_connection_pool_size,
            conf.addresses@.len() >= 1,
        ensures
            pool_wf(r@),
            config_matches(r@.config, *conf),
            r@.idle == Seq::<Connection>::empty(),
            r@.cursor == 0,
            r@.conns_count == 0,
            r@.next_conn_id == 0,
    {
        let mut addresses: Vec<String> = Vec::new();
        let mut i: usize = 0;
        while i < conf.addresses.len()
            invariant
                i <= conf.addresses.len(),
                addresses@ == conf.addresses@.subrange(0, i as int),
            decreases conf.addresses.len() - i,
        {
            addresses.push(conf.addresses[i].clone());
            proof {
                assert(addresses@ =~= conf.addresses@.subrange(0, i + 1));
            }
            i = i + 1;
        }
        proof {
            assert(conf.addresses@.subrange(0, conf.addresses@.len() as int) =~= conf.addresses@);
        }
        let config = PoolConfig {
            timeout: conf.timeout,
            idle_time: conf.idle_time,
            max_connection_pool_size: conf.max_connection_pool_size,
            min_connection_pool_size: conf.min_connection_pool_size,
            addresses,
            username: conf.username.clone(),
            password: conf.password.clone(),
        };
        ConnectionPool_nebula { conns: Vec::new(), config, cursor: 0, conns_count: 0, next_conn_id: 0 }
    }

    /// Construct a pool straight from a `user:password@host:port/...` URL,
    /// with the bounds this client starts from: two eager connections,
    /// ten at most.
    pub fn new_pool(nebula_url: &str) -> (r: Self)
        requires
            text::url_well_formed(nebula_url@),
        ensures
            pool_wf(r@),
            r@.idle == Seq::<Connection>::empty(),
            r@.cursor == 0,
            r@.conns_count == 0,
            r@.next_conn_id == 0,
            r@.config.min_connection_pool_size == 2,
            r@.config.max_connection_pool_size == 10,
            r@.config.addresses@.len() == 1,
            r@.config.addresses@[0]@ == text::url_address(nebula_url@),
            r@.config.username@ == text::url_username(nebula_url@),
            r@.config.password@ == text::url_password(nebula_url@),
    {
        let conf = PoolConfig::new_conf(nebula_url);
        ConnectionPool_nebula::new(&conf)
    }

    /// The count of idle connections.
    pub fn len(&self) -> (r: usize)
        ensures
            r == spec_idle_count(self@),
    {
        self.conns.len()
    }

    /// The count of issued and still-accounted handles: the idle ones
    /// plus every one out with a session.  Callers of [`Self::give_back`]
    /// check against it that a borrowed handle exists.
    pub fn issued_count(&self) -> (r: usize)
        ensures
            r == self@.conns_count,
    {
        self.conns_count
    }

    /// Whether the idle collection is empty: the condition under which a
    /// session request grows the pool by one first.
    pub fn idle_is_empty(&self) -> (r: bool)
        ensures
            r == (spec_idle_count(self@) == 0),
    {
        self.conns.is_empty()
    }

    /// The configuration the pool runs under.
    pub fn get_config(&self) -> (r: &PoolConfig)
        ensures
            *r == self@.config,
    {
        &self.config
    }

    /// Take the most recently returned idle connection, or report the pool
    /// exhausted.  The issued-handle count does not change: the taken
    /// handle is now borrowed.
    pub fn acquire_idle(&mut self) -> (r: Result<Connection, ErrorCode>)
        requires
            pool_wf(old(self)@),
        ensures
            pool_wf(final(self)@),
            old(self)@.idle.len() == 0 ==> (r matches Err(e) && e == ErrorCode::E_UNKNOWN
                && final(self)@ == old(self)@),
            old(self)@.idle.len() > 0 ==> (r matches Ok(c) && c == old(self)@.idle.last()
                && final(self)@ == (PoolView { idle: old(self)@.idle.drop_last(), ..old(self)@ })),
    {
        match self.conns.pop() {
            Some(conn) => Ok(conn),
            None => Err(ErrorCode::E_UNKNOWN),
        }
    }

    /// Give a borrowed connection back to the idle collection.  Only a
    /// handle the pool issued comes back, so a borrowed one exists.
    pub fn give_back(&mut self, conn: Connection)
        requires
            pool_wf(old(self)@),
            spec_borrowed_count(old(self)@) > 0,
        ensures
            pool_wf(final(self)@),
            final(self)@ == (PoolView { idle: old(self)@.idle.push(conn), ..old(self)@ }),
    {
        self.conns.push(conn);
    }

    /// Hand out the next endpoint index, round-robin: the cursor walks the
    /// address list and wraps to zero at its end, so over any window of
    /// consecutive calls every index appears once per full cycle.
    pub fn cursor(&mut self) -> (r: usize)
        requires
            pool_wf(old(self)@),
        ensures
            pool_wf(final(self)@),
            r as int == spec_cursor_index(
                old(self)@.cursor,
                old(self)@.config.addresses@.len() as int,
            ),
            r < old(self)@.config.addresses@.len(),
            final(self)@ == (PoolView { cursor: r as int + 1, ..old(self)@ }),
    {
        if self.cursor >= self.config.addresses.len() {
            self.cursor = 0;
        }
        let b = self.cursor;
        self.cursor = self.cursor + 1;
        b
    }

    /// Open a growth run that sets out to add `inc` connections.  Asking
    /// for none at all is a programmer error; the attempt budget must fit
    /// the machine.
    pub fn grow_begin(&self, inc: u32) -> (g: Growth)
        requires
            pool_wf(self@),
            inc >= 1,
            (inc as int) * self@.config.addresses@.len() < usize::MAX,
        ensures
            growth_wf(g, self@),
            g.inc == inc,
            g.count == 0,
            g.loop_count == 0,
            g.pending is None,
    {
        let limit = (inc as usize) * self.config.addresses.len();
        Growth { inc, count: 0, loop_count: 0, limit, pending: None }
    }

    /// Ask the run for its next attempt.  While the run wants more
    /// connections, the pool is under its cap and the budget is not
    /// spent, this hands out the next round-robin address index and
    /// charges one attempt; otherwise it returns nothing and the run is
    /// over.  The driver resolves a handed-out index with `grow_opened`
    /// or [`Growth::failed`] before asking again.
    pub fn grow_next(&mut self, g: &mut Growth) -> (r: Option<usize>)
        requires
            pool_wf(old(self)@),
            growth_wf(*old(g), old(self)@),
            old(g).pending is None,
        ensures
            pool_wf(final(self)@),
            growth_wf(*final(g), final(self)@),
            final(self)@.config == old(self)@.config,
            if grow_should_try(old(self)@, *old(g)) {
                &&& r matches Some(idx) && idx as int == spec_cursor_index(
                    old(self)@.cursor,
                    old(self)@.config.addresses@.len() as int,
                )
                &&& final(self)@ == (PoolView { cursor: r->0 + 1, ..old(self)@ })
                &&& *final(g) == (Growth {
                    loop_count: (old(g).loop_count + 1) as usize,
                    pending: r,
                    ..*old(g)
                })
            } else {
                &&& r is None
                &&& final(self)@ == old(self)@
                &&& *final(g) == *old(g)
            },
    {
        if !(g.count < g.inc) {
            return None;
        }
        if !(self.conns_count < self.config.max_connection_pool_size as usize) {
            return None;
        }
        if !(g.loop_count <= g.limit) {
            return None;
        }
        let idx = self.cursor();
        g.loop_count = g.loop_count + 1;
        g.pending = Some(idx);
        Some(idx)
    }

    /// Report that the transport for the attempt handed out by the last
    /// `grow_next` opened.  The pool issues a handle for that endpoint
    /// under a fresh id, appends it to the idle collection, and accounts
    /// for it; the returned id is the driver's key to the open transport.
    pub fn grow_opened(&mut self, g: &mut Growth) -> (r: u64)
        requires
            pool_wf(old(self)@),
            growth_wf(*old(g), old(self)@),
            old(g).pending is Some,
            old(self)@.conns_count < old(self)@.config.max_connection_pool_size,
            old(self)@.next_conn_id < u64::MAX,
        ensures
            pool_wf(final(self)@),
            growth_wf(*final(g), final(self)@),
            final(self)@.config == old(self)@.config,
            r as int == old(self)@.next_conn_id,
            final(self)@.idle.len() == old(self)@.idle.len() + 1,
            final(self)@.idle.drop_last() == old(self)@.idle,
            final(self)@.idle.last().id == r,
            final(self)@.idle.last().address == old(self)@.config.addresses@[old(g).pending->0 as int],
            final(self)@.cursor == old(self)@.cursor,
            final(self)@.conns_count == old(self)@.conns_count + 1,
            final(self)@.next_conn_id == old(self)@.next_conn_id + 1,
            *final(g) == (Growth { count: (old(g).count + 1) as u32, pending: None, ..*old(g) }),
    {
        let idx = match g.pending {
            Some(i) => i,
            None => 0,  // ruled out by the precondition
        };
        let address = self.config.addresses[idx].clone();
        let id = self.next_conn_id;
        self.conns.push(Connection { id, address });
        self.next_conn_id = self.next_conn_id + 1;
        self.conns_count = self.conns_count + 1;
        g.count = g.count + 1;
        g.pending = None;
        proof {
            assert(final(self)@.idle.drop_last() =~= old(self)@.idle);
        }
        id
    }

    /// Run a whole growth pass against a script of attempt outcomes:
    /// `outcomes[k]` says whether the `k`-th transport-open attempt
    /// succeeds, and an attempt past the end of the script fails.  The
    /// pass adds at most `inc` connections, never pushes the issued-handle
    /// count past the cap, and spends at most `inc` times the number of
    /// endpoints attempts, plus one, before giving up — so it terminates
    /// even when every endpoint is unreachable.
    ///
    /// When every scripted attempt would succeed and the script is long
    /// enough, the pass adds exactly `min(inc, cap - issued)` connections,
    /// and the `j`-th of them targets the `j`-th round-robin endpoint from
    /// the cursor on.  When every scripted attempt fails, the pass adds
    /// nothing.
    pub fn new_connection(&mut self, inc: u32, outcomes: &Vec<bool>)
        requires
            pool_wf(old(self)@),
            inc >= 1,
            (inc as int) * old(self)@.config.addresses@.len() < usize::MAX,
            old(self)@.next_conn_id + inc <= u64::MAX,
        ensures
            pool_wf(final(self)@),
            final(self)@.config == old(self)@.config,
            final(self)@.cursor <= old(self)@.config.addresses@.len(),
            old(self)@.idle.len() <= final(self)@.idle.len(),
            final(self)@.idle.len() - old(self)@.idle.len() <= inc,
            final(self)@.idle.subrange(0, old(self)@.idle.len() as int) == old(self)@.idle,
            final(self)@.conns_count - old(self)@.conns_count == final(self)@.idle.len() - old(self)@.idle.len(),
            final(self)@.next_conn_id - old(self)@.next_conn_id == final(self)@.idle.len() - old(self)@.idle.len(),
            forall|j: int|
                old(self)@.idle.len() <= j < final(self)@.idle.len()
                    ==> final(self)@.idle[j].id as int == old(self)@.next_conn_id + (j - old(self)@.idle.len()),
            spec_all_succeed(outcomes@, inc) ==> {
                &&& final(self)@.idle.len() - old(self)@.idle.len() == spec_grow_target(old(self)@, inc)
                &&& forall|j: int|
                    old(self)@.idle.len() <= j < final(self)@.idle.len()
                        ==> final(self)@.idle[j].address == old(self)@.config.addresses@[nth_grow_index(
                        old(self)@.cursor,
                        (j - old(self)@.idle.len()) as nat,
                        old(self)@.config.addresses@.len() as int,
                    )]
            },
            spec_all_fail(outcomes@) ==> final(self)@.idle.len() == old(self)@.idle.len(),
    {
        let ghost v0 = self@;
        let ghost len_i = v0.config.addresses@.len() as int;
        let mut g = self.grow_begin(inc);
        let mut done = false;
        while !done
            invariant
                pool_wf(self@),
                pool_wf(v0),
                growth_wf(g, self@),
                g.pending is None,
                g.inc == inc,
                inc >= 1,
                len_i == v0.config.addresses@.len(),
                v0.next_conn_id + inc <= u64::MAX,
                self@.config == v0.config,
                self@.idle.len() == v0.idle.len() + g.count,
                self@.idle.subrange(0, v0.idle.len() as int) == v0.idle,
                self@.conns_count == v0.conns_count + g.count,
                self@.next_conn_id == v0.next_conn_id + g.count,
                forall|j: int|
                    v0.idle.len() <= j < self@.idle.len() ==> self@.idle[j].id as int
                        == v0.next_conn_id + (j - v0.idle.len()),
                g.loop_count == 0 ==> self@.cursor == v0.cursor,
                g.loop_count > 0 ==> self@.cursor == nth_grow_index(
                    v0.cursor,
                    (g.loop_count - 1) as nat,
                    len_i,
                ) + 1,
                done ==> !grow_should_try(self@, g),
                spec_all_succeed(outcomes@, inc) ==> {
                    &&& g.count == g.loop_count
                    &&& forall|j: int|
                        v0.idle.len() <= j < self@.idle.len() ==> self@.idle[j].address
                            == v0.config.addresses@[nth_grow_index(
                            v0.cursor,
                            (j - v0.idle.len()) as nat,
                            len_i,
                        )]
                },
                spec_all_fail(outcomes@) ==> g.count == 0,
            decreases g.limit + 1 - g.loop_count + (if done {
                0int
            } else {
                1int
            }),
        {
            let ghost g_top = g;
            let ghost v_top = self@;
            let r = self.grow_next(&mut g);
            match r {
                None => {
                    done = true;
                },
                Some(idx) => {
                    proof {
                        // The attempt about to be resolved is number
                        // `g_top.loop_count`, and its address index is the
                        // next round-robin index from the starting cursor.
                        if g_top.loop_count == 0 {
                            assert(idx as int == nth_grow_index(v0.cursor, 0nat, len_i));
                        } else {
                            assert(idx as int == spec_cursor_index(
                                nth_grow_index(v0.cursor, (g_top.loop_count - 1) as nat, len_i) + 1,
                                len_i,
                            ));
                            assert(idx as int == nth_grow_index(
                                v0.cursor,
                                g_top.loop_count as nat,
                                len_i,
                            ));
                        }
                    }
                    let k: usize = g.loop_count - 1;
                    let ok = k < outcomes.len() && outcomes[k];
                    if ok {
                        let ghost v_pre = self@;
                        let _id = self.grow_opened(&mut g);
                        proof {
                            let n0 = v0.idle.len() as int;
                            let nl = self@.idle.len() as int;
                            assert(outcome_at(outcomes@, k as int));
                            assert(!spec_all_fail(outcomes@));
                            assert forall|j: int| n0 <= j < nl - 1 implies self@.idle[j]
                                == v_pre.idle[j] by {
                                assert(self@.idle[j] == self@.idle.drop_last()[j]);
                            }
                            assert(self@.idle.subrange(0, n0) =~= v_pre.idle.subrange(0, n0));
                            assert(self@.idle[nl - 1] == self@.idle.last());
                            assert(nl - 1 - n0 == g_top.count);
                            assert forall|j: int|
                                n0 <= j < nl implies self@.idle[j].id as int == v0.next_conn_id + (
                            j - n0) by {
                                if j < nl - 1 {
                                    assert(self@.idle[j] == v_pre.idle[j]);
                                } else {
                                    assert(self@.idle[j] == self@.idle.last());
                                }
                            }
                            if spec_all_succeed(outcomes@, inc) {
                                assert(g_top.count == g_top.loop_count);
                                assert(self@.idle[nl - 1].address == v0.config.addresses@[
                                    nth_grow_index(v0.cursor, (nl - 1 - n0) as nat, len_i)]);
                                assert forall|j: int|
                                    n0 <= j < nl implies self@.idle[j].address
                                        == v0.config.addresses@[nth_grow_index(
                                        v0.cursor,
                                        (j - n0) as nat,
                                        len_i,
                                    )] by {
                                    if j < nl - 1 {
                                        assert(self@.idle[j] == v_pre.idle[j]);
                                        assert(v_pre.idle[j].address == v0.config.addresses@[
                                            nth_grow_index(v0.cursor, (j - n0) as nat, len_i)]);
                                    }
                                }
                            }
                        }
                    } else {
                        g.failed();
                        proof {
                            // Under an all-success script this attempt
                            // could not have failed: it sits inside the
                            // script, which holds only successes.
                            if spec_all_succeed(outcomes@, inc) {
                                assert(g_top.count == g_top.loop_count);
                                assert(g_top.count < inc);
                                assert((k as int) < outcomes@.len());
                                assert(outcomes@[k as int]);
                                assert(false);
                            }
                        }
                    }
                },
            }
        }
        proof {
            assert(inc as int <= g.limit) by (nonlinear_arith)
                requires
                    inc >= 1,
                    len_i >= 1,
                    g.limit == inc * len_i,
            ;
        }
    }

    /// One whole growth pass toward the configured minimum pool size,
    /// against a script of attempt outcomes; see `new_connection`.
    pub fn create_new_connection(&mut self, outcomes: &Vec<bool>)
        requires
            pool_wf(old(self)@),
            old(self)@.config.min_connection_pool_size >= 1,
            old(self)@.config.min_connection_pool_size * old(self)@.config.addresses@.len()
                < usize::MAX,
            old(self)@.next_conn_id + old(self)@.config.min_connection_pool_size <= u64::MAX,
        ensures
            pool_wf(final(self)@),
            final(self)@.config == old(self)@.config,
            old(self)@.idle.len() <= final(self)@.idle.len(),
            final(self)@.idle.len() - old(self)@.idle.len()
                <= old(self)@.config.min_connection_pool_size,
            final(self)@.idle.subrange(0, old(self)@.idle.len() as int) == old(self)@.idle,
            final(self)@.conns_count - old(self)@.conns_count == final(self)@.idle.len() - old(self)@.idle.len(),
            spec_all_succeed(outcomes@, old(self)@.config.min_connection_pool_size)
                ==> final(self)@.idle.len() - old(self)@.idle.len() == spec_grow_target(
                old(self)@,
                old(self)@.config.min_connection_pool_size,
            ),
    {
        let inc = self.config.min_connection_pool_size;
        self.new_connection(inc, outcomes);
    }
}

/// Round-robin fairness of the endpoint cursor: from a fresh cursor, the
/// `k`-th handed-out index is `k` modulo the address-list length — the
/// sequence `0, 1, ..., len-1, 0, 1, ...` — so across any window of
/// `len` consecutive hand-outs every index appears exactly once, and none
/// is skipped.
pub proof fn lemma_round_robin(k: nat, len: int)
    requires
        len >= 1,
    ensures
        nth_grow_index(0, k, len) == (k as int) % len,
    decreases k,
{
    if k == 0 {
        lemma_small_mod(0, len as nat);
    } else {
        lemma_round_robin((k - 1) as nat, len);
        let p = nth_grow_index(0, (k - 1) as nat, len);
        lemma_mod_pos_bound((k - 1) as int, len);
        lemma_fundamental_div_mod((k - 1) as int, len);
        let q = ((k - 1) as int) / len;
        if p + 1 == len {
            assert((k as int) == (q + 1) * len + 0) by (nonlinear_arith)
                requires
                    (k - 1) as int == len * q + p,
                    p + 1 == len,
            ;
            lemma_fundamental_div_mod_converse(k as int, len, q + 1, 0);
        } else {
            assert((k as int) == q * len + (p + 1)) by (nonlinear_arith)
                requires
                    (k - 1) as int == len * q + p,
            ;
            lemma_fundamental_div_mod_converse(k as int, len, q, p + 1);
        }
    }
}

/// The capacity bound: in every well-formed pool state, the idle handles
/// and the borrowed ones together never exceed the configured maximum.
/// Every pool operation requires well-formedness and re-establishes it,
/// so the bound holds at every point of a pool's life.
pub proof fn lemma_capacity(v: PoolView)
    requires
        pool_wf(v),
    ensures
        spec_idle_count(v) + spec_borrowed_count(v) <= v.config.max_connection_pool_size,
{
}

/// The reclamation law: giving one borrowed handle back — the state
/// change `give_back` pins down — moves exactly one handle from borrowed
/// to idle and leaves the issued count alone, so a terminating session
/// never loses its connection from the pool's accounting.  Session
/// termination consumes the session, so this happens at most once per
/// session; a driver's teardown path runs it on every exit, so exactly
/// once.
pub proof fn lemma_reclaim(v: PoolView, conn: Connection)
    requires
        pool_wf(v),
        spec_borrowed_count(v) > 0,
    ensures
        ({
            let v2 = PoolView { idle: v.idle.push(conn), ..v };
            &&& pool_wf(v2)
            &&& spec_idle_count(v2) == spec_idle_count(v) + 1
            &&& spec_borrowed_count(v2) == spec_borrowed_count(v) - 1
            &&& v2.conns_count == v.conns_count
        }),
{
}

} // verus!
