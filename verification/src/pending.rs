//! The state tokens of the authorizations that are under way. A token is
//! entered when a user is sent to the authorization page, is good for one
//! callback, and lapses a fixed time after it was entered.

use crate::text::str_eq;
use vstd::prelude::*;

verus! {

/// True when a token entered at `issued_at` is still good at `now`: `now`
/// is not before `issued_at` and at most `lifetime` after it.
pub open spec fn is_live(issued_at: u64, now: u64, lifetime: u64) -> bool {
    issued_at <= now && now - issued_at <= lifetime
}

/// True when a callback that carries `state` at `now` is accepted: the
/// token is pending and still good.
pub open spec fn accepts(
    pending: Map<Seq<char>, u64>,
    lifetime: u64,
    state: Seq<char>,
    now: u64,
) -> bool {
    pending.contains_key(state) && is_live(pending[state], now, lifetime)
}

/// The pending tokens that are still good at `now`.
pub open spec fn live_part(pending: Map<Seq<char>, u64>, lifetime: u64, now: u64) -> Map<
    Seq<char>,
    u64,
> {
    Map::new(
        |state: Seq<char>| pending.contains_key(state) && is_live(pending[state], now, lifetime),
        |state: Seq<char>| pending[state],
    )
}

struct PendingFlow {
    state: String,
    issued_at: u64,
}

/// The pending state tokens, each with the time at which it was entered.
/// Times are seconds on a clock of the caller's choice.
pub struct PendingFlows {
    flows: Vec<PendingFlow>,
    lifetime: u64,
}

spec fn holds(flows: Seq<PendingFlow>, state: Seq<char>) -> bool {
    exists|i: int| 0 <= i < flows.len() && (#[trigger] flows[i]).state@ == state
}

spec fn place_of(flows: Seq<PendingFlow>, state: Seq<char>) -> int {
    choose|i: int| 0 <= i < flows.len() && (#[trigger] flows[i]).state@ == state
}

spec fn distinct(flows: Seq<PendingFlow>) -> bool {
    forall|i: int, j: int|
        0 <= i < j < flows.len() ==> (#[trigger] flows[i]).state@ != (#[trigger] flows[j]).state@
}

spec fn flows_map(flows: Seq<PendingFlow>) -> Map<Seq<char>, u64> {
    Map::new(
        |state: Seq<char>| holds(flows, state),
        |state: Seq<char>| flows[place_of(flows, state)].issued_at,
    )
}

proof fn lemma_flow_in_map(flows: Seq<PendingFlow>, i: int)
    requires
        distinct(flows),
        0 <= i < flows.len(),
    ensures
        flows_map(flows).contains_key(flows[i].state@),
        flows_map(flows)[flows[i].state@] == flows[i].issued_at,
{
    let state = flows[i].state@;
    assert(holds(flows, state));
    // The place that the map looks at holds the same state, so it is `i`.
    assert(place_of(flows, state) == i);
}

proof fn lemma_push(flows: Seq<PendingFlow>, flow: PendingFlow)
    requires
        distinct(flows),
        !holds(flows, flow.state@),
    ensures
        distinct(flows.push(flow)),
        flows_map(flows.push(flow)) == flows_map(flows).insert(flow.state@, flow.issued_at),
{
    let more = flows.push(flow);
    assert forall|i: int, j: int| 0 <= i < j < more.len() implies
        (#[trigger] more[i]).state@ != (#[trigger] more[j]).state@ by {
        assert(more[i] == flows[i]);
    }
    let wanted = flows_map(flows).insert(flow.state@, flow.issued_at);
    assert forall|state: Seq<char>|
        #[trigger] flows_map(more).contains_key(state) == wanted.contains_key(state) by {
        if holds(flows, state) {
            assert(more[place_of(flows, state)].state@ == state);
        }
        if state == flow.state@ {
            assert(more[flows.len() as int].state@ == state);
        }
    }
    assert forall|state: Seq<char>| #[trigger] flows_map(more).contains_key(state) implies
        flows_map(more)[state] == wanted[state] by {
        let i = place_of(more, state);
        lemma_flow_in_map(more, i);
        if i < flows.len() {
            lemma_flow_in_map(flows, i);
        }
    }
    assert(flows_map(more) =~= wanted);
}

proof fn lemma_remove(flows: Seq<PendingFlow>, at: int)
    requires
        distinct(flows),
        0 <= at < flows.len(),
    ensures
        distinct(flows.remove(at)),
        flows_map(flows.remove(at)) == flows_map(flows).remove(flows[at].state@),
{
    let fewer = flows.remove(at);
    let gone = flows[at].state@;
    assert forall|i: int| 0 <= i < fewer.len() implies
        #[trigger] fewer[i] == flows[if i < at { i } else { i + 1 }] by {}
    assert forall|i: int, j: int| 0 <= i < j < fewer.len() implies
        (#[trigger] fewer[i]).state@ != (#[trigger] fewer[j]).state@ by {
        let a = if i < at { i } else { i + 1 };
        let b = if j < at { j } else { j + 1 };
        assert(flows[a].state@ != flows[b].state@);
    }
    let wanted = flows_map(flows).remove(gone);
    assert forall|state: Seq<char>|
        #[trigger] flows_map(fewer).contains_key(state) == wanted.contains_key(state) by {
        if holds(fewer, state) {
            let i = place_of(fewer, state);
            let a = if i < at { i } else { i + 1 };
            assert(flows[a].state@ == state && a != at);
        }
        if holds(flows, state) && state != gone {
            let a = place_of(flows, state);
            let i = if a < at { a } else { a - 1 };
            assert(fewer[i].state@ == state);
        }
    }
    assert forall|state: Seq<char>| #[trigger] flows_map(fewer).contains_key(state) implies
        flows_map(fewer)[state] == wanted[state] by {
        let i = place_of(fewer, state);
        let a = if i < at { i } else { i + 1 };
        lemma_flow_in_map(fewer, i);
        lemma_flow_in_map(flows, a);
    }
    assert(flows_map(fewer) =~= wanted);
}

proof fn lemma_absent(flows: Seq<PendingFlow>, state: Seq<char>)
    requires
        forall|i: int| 0 <= i < flows.len() ==> (#[trigger] flows[i]).state@ != state,
    ensures
        !flows_map(flows).contains_key(state),
{
    if holds(flows, state) {
        assert(flows[place_of(flows, state)].state@ == state);
    }
}

impl View for PendingFlows {
    type V = Map<Seq<char>, u64>;

    closed spec fn view(&self) -> Map<Seq<char>, u64> {
        flows_map(self.flows@)
    }
}

impl PendingFlows {
    #[verifier::type_invariant]
    spec fn well_formed(&self) -> bool {
        distinct(self.flows@)
    }

    /// How long a token stays good after it was entered.
    pub closed spec fn lifetime(&self) -> u64 {
        self.lifetime
    }

    /// A store without tokens, in which each token will stay good for
    /// `lifetime` seconds.
    pub fn new(lifetime: u64) -> (store: PendingFlows)
        ensures
            store@ == Map::<Seq<char>, u64>::empty(),
            store.lifetime() == lifetime,
    {
        let store = PendingFlows { flows: Vec::new(), lifetime };
        proof {
            lemma_absent_everywhere(store.flows@);
        }
        store
    }

    fn find(&self, state: &str) -> (place: Option<usize>)
        ensures
            match place {
                Some(i) => i < self.flows@.len() && self.flows@[i as int].state@ == state@,
                None => !self@.contains_key(state@),
            },
    {
        let mut i: usize = 0;
        while i < self.flows.len()
            invariant
                0 <= i <= self.flows@.len(),
                forall|j: int| 0 <= j < i ==> (#[trigger] self.flows@[j]).state@ != state@,
            decreases self.flows@.len() - i,
        {
            if str_eq(self.flows[i].state.as_str(), state) {
                return Some(i);
            }
            i += 1;
        }
        proof {
            lemma_absent(self.flows@, state@);
        }
        None
    }

    /// Enters `state` as issued at `now`. A token that is already pending
    /// is not entered again: the store stays as it is and the result is
    /// `false`.
    pub fn begin(&mut self, state: &str, now: u64) -> (begun: bool)
        ensures
            begun == !old(self)@.contains_key(state@),
            final(self)@ == if begun {
                old(self)@.insert(state@, now)
            } else {
                old(self)@
            },
            final(self).lifetime() == old(self).lifetime(),
    {
        proof {
            use_type_invariant(&*self);
        }
        match self.find(state) {
            Some(i) => {
                proof {
                    lemma_flow_in_map(self.flows@, i as int);
                }
                false
            },
            None => {
                let flow = PendingFlow { state: String::from_str(state), issued_at: now };
                proof {
                    lemma_push(self.flows@, flow);
                }
                // The list is taken out while it changes and put back whole.
                let mut flows: Vec<PendingFlow> = Vec::new();
                core::mem::swap(&mut self.flows, &mut flows);
                flows.push(flow);
                core::mem::swap(&mut self.flows, &mut flows);
                true
            },
        }
    }

    /// Takes `state` out of the store and tells whether a callback that
    /// carries it at `now` is accepted: whether the token was pending and
    /// still good. Accepted or not, the token is gone afterwards.
    pub fn consume(&mut self, state: &str, now: u64) -> (accepted: bool)
        ensures
            accepted == accepts(old(self)@, old(self).lifetime(), state@, now),
            final(self)@ == old(self)@.remove(state@),
            final(self).lifetime() == old(self).lifetime(),
    {
        proof {
            use_type_invariant(&*self);
        }
        match self.find(state) {
            Some(i) => {
                proof {
                    lemma_flow_in_map(self.flows@, i as int);
                    lemma_remove(self.flows@, i as int);
                }
                let mut flows: Vec<PendingFlow> = Vec::new();
                core::mem::swap(&mut self.flows, &mut flows);
                let flow = flows.remove(i);
                core::mem::swap(&mut self.flows, &mut flows);
                flow.issued_at <= now && now - flow.issued_at <= self.lifetime
            },
            None => {
                assert(self@.remove(state@) =~= self@);
                false
            },
        }
    }

    /// Drops every token that is no longer good at `now`.
    pub fn expire(&mut self, now: u64)
        ensures
            final(self)@ == live_part(old(self)@, old(self).lifetime(), now),
            final(self).lifetime() == old(self).lifetime(),
    {
        proof {
            use_type_invariant(&*self);
        }
        let ghost before = self@;
        let lifetime = self.lifetime;
        let mut flows: Vec<PendingFlow> = Vec::new();
        core::mem::swap(&mut self.flows, &mut flows);
        let mut i: usize = 0;
        while i < flows.len()
            invariant
                0 <= i <= flows@.len(),
                distinct(flows@),
                forall|j: int|
                    0 <= j < i ==> is_live((#[trigger] flows@[j]).issued_at, now, lifetime),
                forall|state: Seq<char>|
                    #[trigger] flows_map(flows@).contains_key(state) ==> before.contains_key(state)
                        && flows_map(flows@)[state] == before[state],
                forall|state: Seq<char>|
                    #[trigger] before.contains_key(state) && is_live(before[state], now, lifetime)
                        ==> flows_map(flows@).contains_key(state),
            decreases flows@.len() - i,
        {
            let issued_at = flows[i].issued_at;
            if issued_at <= now && now - issued_at <= lifetime {
                i += 1;
            } else {
                proof {
                    lemma_flow_in_map(flows@, i as int);
                    lemma_remove(flows@, i as int);
                }
                flows.remove(i);
            }
        }
        proof {
            let wanted = live_part(before, lifetime, now);
            assert forall|state: Seq<char>| #[trigger] flows_map(flows@).contains_key(state) implies
                is_live(before[state], now, lifetime) by {
                let at = place_of(flows@, state);
                lemma_flow_in_map(flows@, at);
            }
            assert(flows_map(flows@) =~= wanted);
        }
        core::mem::swap(&mut self.flows, &mut flows);
    }
}

/// A token is good for one callback: once it has been taken out of the
/// store, no later callback that carries it is accepted.
pub proof fn lemma_state_is_single_use(
    pending: Map<Seq<char>, u64>,
    lifetime: u64,
    state: Seq<char>,
    later: u64,
)
    ensures
        !accepts(pending.remove(state), lifetime, state, later),
{
}

/// A callback is accepted only with a token that was entered: a token that
/// is not pending is turned away at any time.
pub proof fn lemma_unknown_state_is_rejected(
    pending: Map<Seq<char>, u64>,
    lifetime: u64,
    state: Seq<char>,
    now: u64,
)
    requires
        !pending.contains_key(state),
    ensures
        !accepts(pending, lifetime, state, now),
        !accepts(Map::<Seq<char>, u64>::empty(), lifetime, state, now),
{
}

/// A token that was just entered is accepted exactly as long as it is
/// good: from the moment it was entered until `lifetime` later. Entering
/// another token changes nothing for it.
pub proof fn lemma_entered_state_is_accepted_while_live(
    pending: Map<Seq<char>, u64>,
    lifetime: u64,
    state: Seq<char>,
    issued_at: u64,
    other: Seq<char>,
    now: u64,
)
    requires
        other != state,
    ensures
        accepts(pending.insert(state, issued_at), lifetime, state, now) == is_live(
            issued_at,
            now,
            lifetime,
        ),
        accepts(pending.insert(other, issued_at), lifetime, state, now) == accepts(
            pending,
            lifetime,
            state,
            now,
        ),
{
}

/// A token that has lapsed is turned away, and dropping the lapsed tokens
/// changes the answer for no token.
pub proof fn lemma_lapsed_state_is_rejected(
    pending: Map<Seq<char>, u64>,
    lifetime: u64,
    state: Seq<char>,
    now: u64,
)
    ensures
        pending.contains_key(state) && now - pending[state] > lifetime ==> !accepts(
            pending,
            lifetime,
            state,
            now,
        ),
        accepts(live_part(pending, lifetime, now), lifetime, state, now) == accepts(
            pending,
            lifetime,
            state,
            now,
        ),
{
}

proof fn lemma_absent_everywhere(flows: Seq<PendingFlow>)
    requires
        flows.len() == 0,
    ensures
        flows_map(flows) == Map::<Seq<char>, u64>::empty(),
{
    assert forall|state: Seq<char>| !(#[trigger] flows_map(flows).contains_key(state)) by {
        lemma_absent(flows, state);
    }
    assert(flows_map(flows) =~= Map::<Seq<char>, u64>::empty());
}

} // verus!
