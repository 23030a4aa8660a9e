use vstd::prelude::*;

use crate::address::SocketAddress;

verus! {

/// One backend that requests can be forwarded to.
#[derive(Debug, Clone, Copy, PartialEq, Eq, Hash, Structural)]
pub struct Endpoint {
    pub addr: SocketAddress,
}

/// What happened when a request was sent to an endpoint.
#[derive(Debug, Clone, Copy, PartialEq, Eq, Structural)]
pub enum Outcome {
    Success,
    Failure,
}

/// A non-empty set of endpoints, handed out in round-robin order.
pub struct Cluster {
    endpoints: Vec<Endpoint>,
    cursor: usize,
}

/// The cursor after one pick: it counts up and wraps to 0 past `usize::MAX`.
pub open spec fn next_cursor(cursor: usize) -> usize {
    if cursor == usize::MAX {
        0
    } else {
        (cursor + 1) as usize
    }
}

/// The endpoints that `k` successive picks return, starting from `cursor`.
pub open spec fn picks(endpoints: Seq<Endpoint>, cursor: usize, k: nat) -> Seq<Endpoint>
    decreases k,
{
    if k == 0 {
        Seq::empty()
    } else {
        seq![endpoints[cursor as int % endpoints.len() as int]] + picks(
            endpoints,
            next_cursor(cursor),
            (k - 1) as nat,
        )
    }
}

impl Cluster {
    /// The endpoints, in the order they were given.
    pub closed spec fn endpoints(&self) -> Seq<Endpoint> {
        self.endpoints@
    }

    /// How many picks have been made so far, modulo `usize::MAX + 1`.
    pub closed spec fn cursor(&self) -> usize {
        self.cursor
    }

    /// A cluster always holds at least one endpoint.
    pub open spec fn wf(&self) -> bool {
        self.endpoints().len() > 0
    }

    /// Makes a cluster over `endpoints`; the first pick returns `endpoints[0]`.
    pub fn new(endpoints: Vec<Endpoint>) -> (c: Self)
        requires
            endpoints.len() > 0,
        ensures
            c.wf(),
            c.endpoints() == endpoints@,
            c.cursor() == 0,
    {
        Cluster { endpoints, cursor: 0 }
    }

    /// Returns the endpoint under the cursor and advances the cursor by one.
    pub fn pick_endpoint(&mut self) -> (e: Endpoint)
        requires
            old(self).wf(),
        ensures
            final(self).wf(),
            final(self).endpoints() == old(self).endpoints(),
            final(self).cursor() == next_cursor(old(self).cursor()),
            e == old(self).endpoints()[old(self).cursor() as int % old(self).endpoints().len() as int],
    {
        let idx = self.cursor % self.endpoints.len();
        self.cursor = self.cursor.wrapping_add(1);
        self.endpoints[idx]
    }

    /// Records how a request to `endpoint` went. Endpoints are not yet
    /// ranked by health, so the cluster stays as it is.
    pub fn report_outcome(&self, endpoint: Endpoint, outcome: Outcome) {
    }
}

/// Round robin: the `i`-th of `k` successive picks from cursor `cursor` is
/// endpoint `(cursor + i) mod n`, as long as the cursor does not wrap.
pub proof fn lemma_picks_round_robin(endpoints: Seq<Endpoint>, cursor: usize, k: nat)
    requires
        endpoints.len() > 0,
        cursor + k <= usize::MAX + 1,
    ensures
        picks(endpoints, cursor, k).len() == k,
        forall|i: int|
            0 <= i < k ==> #[trigger] picks(endpoints, cursor, k)[i] == endpoints[(cursor + i)
                % endpoints.len() as int],
    decreases k,
{
    if k > 0 {
        lemma_picks_round_robin(endpoints, next_cursor(cursor), (k - 1) as nat);
        let rest = picks(endpoints, next_cursor(cursor), (k - 1) as nat);
        assert forall|i: int| 0 <= i < k implies #[trigger] picks(endpoints, cursor, k)[i]
            == endpoints[(cursor + i) % endpoints.len() as int] by {
            if i > 0 {
                assert(picks(endpoints, cursor, k)[i] == rest[i - 1]);
                assert(next_cursor(cursor) == cursor + 1);
            }
        }
    }
}


/// The cursor after `k` picks starting from `cursor`.
pub open spec fn cursor_after(cursor: usize, k: nat) -> usize
    decreases k,
{
    if k == 0 {
        cursor
    } else {
        cursor_after(next_cursor(cursor), (k - 1) as nat)
    }
}

/// The pick that follows `k` earlier picks returns the endpoint under the
/// cursor as those picks left it, wrapping included.
pub proof fn lemma_pick_after(endpoints: Seq<Endpoint>, cursor: usize, k: nat)
    requires
        endpoints.len() > 0,
    ensures
        picks(endpoints, cursor, k + 1).len() == k + 1,
        picks(endpoints, cursor, k + 1)[k as int] == endpoints[cursor_after(cursor, k) as int
            % endpoints.len() as int],
    decreases k,
{
    if k > 0 {
        lemma_pick_after(endpoints, next_cursor(cursor), (k - 1) as nat);
        let rest = picks(endpoints, next_cursor(cursor), k);
        assert(picks(endpoints, cursor, k + 1) == seq![endpoints[cursor as int % endpoints.len() as int]]
            + rest);
    } else {
        assert(picks(endpoints, next_cursor(cursor), 0) == Seq::<Endpoint>::empty());
    }
}

/// Counting up from `cursor`, the cursor after `k` picks is `cursor + k` as
/// long as that does not pass `usize::MAX`.
pub proof fn lemma_cursor_counts_picks(cursor: usize, k: nat)
    requires
        cursor + k <= usize::MAX,
    ensures
        cursor_after(cursor, k) == cursor + k,
    decreases k,
{
    if k > 0 {
        lemma_cursor_counts_picks(next_cursor(cursor), (k - 1) as nat);
    }
}

/// On a fresh cluster over `n` endpoints, the pick that follows `k` earlier
/// picks returns endpoint `k mod n`, for every `k` up to `usize::MAX`.
pub proof fn lemma_fresh_cluster_round_robin(endpoints: Seq<Endpoint>, k: nat)
    requires
        endpoints.len() > 0,
        k <= usize::MAX,
    ensures
        picks(endpoints, 0, k + 1)[k as int] == endpoints[k as int % endpoints.len() as int],
{
    lemma_pick_after(endpoints, 0, k);
    lemma_cursor_counts_picks(0, k);
}

} // verus!
