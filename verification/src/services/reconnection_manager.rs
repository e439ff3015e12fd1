use crate::models::dice_slot::DiceSlot;
use crate::models::reconnection_request::ReconnectionRequest;
use vstd::prelude::*;

verus! {

/// Number of present entries among the first `i`.
pub open spec fn count_some_upto(s: Seq<Option<ReconnectionRequest>>, i: int) -> nat
    decreases i,
{
    if i <= 0 {
        0
    } else {
        count_some_upto(s, i - 1) + if s[i - 1] is Some {
            1nat
        } else {
            0nat
        }
    }
}

/// The present entries among the first `i`, in order.
pub open spec fn present_upto(s: Seq<Option<ReconnectionRequest>>, i: int) -> Seq<ReconnectionRequest>
    decreases i,
{
    if i <= 0 {
        Seq::empty()
    } else {
        match s[i - 1] {
            Some(r) => present_upto(s, i - 1).push(r),
            None => present_upto(s, i - 1),
        }
    }
}

/// Replacing one entry changes the count of present entries by the
/// difference of the two entries' presence.
proof fn lemma_count_update(s: Seq<Option<ReconnectionRequest>>, n: int, k: int, v: Option<ReconnectionRequest>)
    requires
        0 <= k < n <= s.len(),
    ensures
        count_some_upto(s.update(k, v), n) + (if s[k] is Some {
            1int
        } else {
            0int
        }) == count_some_upto(s, n) + (if v is Some {
            1int
        } else {
            0int
        }),
    decreases n,
{
    if k < n - 1 {
        lemma_count_update(s, n - 1, k, v);
    } else {
        lemma_count_frame(s.update(k, v), s, n - 1);
    }
}

/// The count of present entries among the first `n` only depends on them.
proof fn lemma_count_frame(a: Seq<Option<ReconnectionRequest>>, b: Seq<Option<ReconnectionRequest>>, n: int)
    requires
        forall|i: int| 0 <= i < n ==> a[i] == b[i],
    ensures
        count_some_upto(a, n) == count_some_upto(b, n),
    decreases n,
{
    if n > 0 {
        lemma_count_frame(a, b, n - 1);
    }
}

/// Registering a disconnect adds one pending request when its slot had
/// none and keeps the count when it replaces an older request; marking a
/// slot reconnected removes one pending request when the slot had one.
/// Either way the slot's pending request is then the new one, or none.
pub proof fn lemma_pending_count_changes(
    pending: Seq<Option<ReconnectionRequest>>,
    slot: DiceSlot,
    request: ReconnectionRequest,
)
    requires
        pending.len() == 5,
        slot@ < 5,
    ensures
        count_some_upto(pending.update(slot@ as int, Some(request)), 5) == count_some_upto(pending, 5) + (
        if pending[slot@ as int] is None {
            1int
        } else {
            0int
        }),
        count_some_upto(pending.update(slot@ as int, None), 5) + (if pending[slot@ as int] is Some {
            1int
        } else {
            0int
        }) == count_some_upto(pending, 5),
{
    lemma_count_update(pending, 5, slot@ as int, Some(request));
    lemma_count_update(pending, 5, slot@ as int, None);
}

/// Some successful attempt reconnected the slot `i`.
pub open spec fn reconnected_slot(attempted: Seq<ReconnectionRequest>, succeeded: Seq<bool>, i: int) -> bool {
    exists|k: int| 0 <= k < attempted.len() && succeeded[k] && (#[trigger] attempted[k]).slot_of()@ == i
}

/// The request kept for each slot names that slot.
pub open spec fn slots_consistent(s: Seq<Option<ReconnectionRequest>>) -> bool {
    forall|i: int| 0 <= i < s.len() ==> (#[trigger] s[i] matches Some(r) ==> r.slot_of()@ == i)
}

/// The present entries among the first `n`, of consistent slots: each
/// names a slot below `n` whose entry it is, their slots strictly
/// increase, and every present entry among the first `n` is listed.
pub proof fn lemma_present_upto(s: Seq<Option<ReconnectionRequest>>, n: int)
    requires
        slots_consistent(s),
        0 <= n <= s.len(),
    ensures
        forall|k: int|
            0 <= k < present_upto(s, n).len() ==> {
                let r = #[trigger] present_upto(s, n)[k];
                &&& 0 <= r.slot_of()@ < n
                &&& s[r.slot_of()@ as int] == Some(r)
            },
        forall|k: int, l: int|
            0 <= k < l < present_upto(s, n).len() ==> (#[trigger] present_upto(s, n)[k]).slot_of()@
                < (#[trigger] present_upto(s, n)[l]).slot_of()@,
        forall|i: int| 0 <= i < n && (#[trigger] s[i]) is Some ==> present_upto(s, n).contains(s[i]->0),
    decreases n,
{
    if n > 0 {
        lemma_present_upto(s, n - 1);
        let prev = present_upto(s, n - 1);
        if let Some(r) = s[n - 1] {
            assert(present_upto(s, n) == prev.push(r));
            assert forall|i: int| 0 <= i < n && (#[trigger] s[i]) is Some implies present_upto(s, n).contains(
                s[i]->0,
            ) by {
                if i < n - 1 {
                    let k = choose|k: int| 0 <= k < prev.len() && prev[k] == s[i]->0;
                    assert(present_upto(s, n)[k] == s[i]->0);
                } else {
                    assert(present_upto(s, n)[prev.len() as int] == s[i]->0);
                }
            }
        }
    }
}

/// Reconnecting the pending requests: when the attempts are made for
/// exactly the pending requests, in slot order, a slot stays pending
/// exactly when it was pending and its attempt failed.
pub proof fn lemma_reconnect_outcome(pending: Seq<Option<ReconnectionRequest>>, succeeded: Seq<bool>, i: int)
    requires
        pending.len() == 5,
        slots_consistent(pending),
        succeeded.len() == present_upto(pending, 5).len(),
        0 <= i < 5,
    ensures
        reconnected_slot(present_upto(pending, 5), succeeded, i) <==> pending[i] is Some && exists|k: int|
            0 <= k < succeeded.len() && #[trigger] succeeded[k] && present_upto(pending, 5)[k] == pending[i]->0,
{
    lemma_present_upto(pending, 5);
    let attempted = present_upto(pending, 5);
    if reconnected_slot(attempted, succeeded, i) {
        let k = choose|k: int| 0 <= k < attempted.len() && succeeded[k] && (#[trigger] attempted[k]).slot_of()@ == i;
        assert(pending[attempted[k].slot_of()@ as int] == Some(attempted[k]));
    }
    if pending[i] is Some && exists|k: int|
        0 <= k < succeeded.len() && #[trigger] succeeded[k] && attempted[k] == pending[i]->0 {
        let k = choose|k: int| 0 <= k < succeeded.len() && #[trigger] succeeded[k] && attempted[k] == pending[i]->0;
        assert(pending[i] matches Some(r) && r.slot_of()@ == i);
        assert(attempted[k].slot_of()@ == i);
    }
}

/// Manages reconnection of disconnected dice.
///
/// Tracks dice that have disconnected mid-game. The manager keeps at most
/// one pending reconnection request per slot; a newer request for a slot
/// replaces the older one.
pub struct ReconnectionManager {
    /// Pending reconnection requests, indexed by slot.
    pending: [Option<ReconnectionRequest>; 5],
}

impl ReconnectionManager {
    /// The pending request of each slot.
    pub closed spec fn pending_of(&self) -> Seq<Option<ReconnectionRequest>> {
        self.pending@
    }

    /// The request kept for a slot always names that slot.
    #[verifier::type_invariant]
    spec fn inv(&self) -> bool {
        slots_consistent(self.pending@)
    }

    /// The model has one entry per slot.
    pub proof fn lemma_len(&self)
        ensures
            self.pending_of().len() == 5,
    {
    }

    /// Create a new reconnection manager with no pending requests.
    pub fn new() -> (m: ReconnectionManager)
        ensures
            forall|i: int| 0 <= i < 5 ==> #[trigger] m.pending_of()[i] is None,
            slots_consistent(m.pending_of()),
    {
        Self { pending: [None, None, None, None, None] }
    }

    /// Register a dice disconnection for potential reconnection.
    ///
    /// Stores the request under its slot, replacing an older request for
    /// the same slot.
    pub fn register_disconnect(&mut self, request: ReconnectionRequest)
        ensures
            final(self).pending_of() == old(self).pending_of().update(
                request.slot_of()@ as int,
                Some(request),
            ),
    {
        proof {
            use_type_invariant(&*self);
        }
        let i = request.slot().get() as usize;
        self.pending[i] = Some(request);
        assert(self.pending@ =~= old(self).pending@.update(i as int, Some(request)));
    }

    /// The device name of the pending request for the slot, or `None` if
    /// no reconnection is pending.
    pub fn pending_for_slot(&self, slot: DiceSlot) -> (name: Option<String>)
        ensures
            match self.pending_of()[slot@ as int] {
                Some(r) => name matches Some(n) && n@ == r.name_of(),
                None => name is None,
            },
    {
        let i = slot.get() as usize;
        match &self.pending[i] {
            Some(r) => Some(String::from_str(r.device_name())),
            None => None,
        }
    }

    /// Mark a slot as reconnected, removing it from pending requests.
    pub fn mark_reconnected(&mut self, slot: DiceSlot)
        ensures
            final(self).pending_of() == old(self).pending_of().update(slot@ as int, None),
    {
        proof {
            use_type_invariant(&*self);
        }
        let i = slot.get() as usize;
        self.pending[i] = None;
        assert(self.pending@ =~= old(self).pending@.update(i as int, None));
    }

    /// Returns the number of pending reconnection requests.
    pub fn pending_count(&self) -> (n: usize)
        ensures
            n == count_some_upto(self.pending_of(), 5),
    {
        let mut n: usize = 0;
        let mut i: usize = 0;
        while i < 5
            invariant
                i <= 5,
                n == count_some_upto(self.pending@, i as int),
                n <= i,
            decreases 5 - i,
        {
            if self.pending[i].is_some() {
                n += 1;
            }
            i += 1;
        }
        n
    }

    /// Returns true if there are any pending reconnection requests.
    pub fn has_pending(&self) -> (b: bool)
        ensures
            b <==> count_some_upto(self.pending_of(), 5) > 0,
    {
        self.pending_count() > 0
    }

    /// Returns all pending reconnection requests, in slot order: each one
    /// is the request pending for its slot, no slot occurs twice, and every
    /// pending request is listed.
    pub fn pending_requests(&self) -> (requests: Vec<ReconnectionRequest>)
        ensures
            requests@ == present_upto(self.pending_of(), 5),
            slots_consistent(self.pending_of()),
            forall|k: int|
                0 <= k < requests@.len() ==> 0 <= (#[trigger] requests@[k]).slot_of()@ < 5
                    && self.pending_of()[requests@[k].slot_of()@ as int] == Some(requests@[k]),
            forall|k: int, l: int|
                0 <= k < l < requests@.len() ==> (#[trigger] requests@[k]).slot_of()@ < (
                #[trigger] requests@[l]).slot_of()@,
            forall|i: int|
                0 <= i < 5 && (#[trigger] self.pending_of()[i]) is Some ==> requests@.contains(
                    self.pending_of()[i]->0,
                ),
    {
        proof {
            use_type_invariant(self);
            lemma_present_upto(self.pending@, 5);
        }
        let mut requests: Vec<ReconnectionRequest> = Vec::new();
        let mut i: usize = 0;
        while i < 5
            invariant
                i <= 5,
                requests@ == present_upto(self.pending@, i as int),
            decreases 5 - i,
        {
            match &self.pending[i] {
                Some(r) => requests.push(r.clone()),
                None => {},
            }
            i += 1;
        }
        requests
    }

    /// Record the outcome of reconnection attempts: `succeeded[k]` says
    /// whether the attempt for `attempted[k]` reconnected its die. Slots of
    /// successful attempts are no longer pending; failed attempts stay
    /// pending for a later try.
    pub fn finish_reconnect_attempts(&mut self, attempted: &Vec<ReconnectionRequest>, succeeded: &Vec<bool>)
        requires
            attempted.len() == succeeded.len(),
        ensures
            final(self).pending_of() == Seq::new(
                5,
                |i: int|
                    if reconnected_slot(attempted@, succeeded@, i) {
                        None
                    } else {
                        old(self).pending_of()[i]
                    },
            ),
            slots_consistent(final(self).pending_of()),
    {
        proof {
            use_type_invariant(&*self);
        }
        let mut k: usize = 0;
        while k < attempted.len()
            invariant
                attempted.len() == succeeded.len(),
                k <= attempted.len(),
                forall|i: int|
                    0 <= i < 5 ==> #[trigger] self.pending@[i] == if (exists|j: int|
                        0 <= j < k && succeeded@[j] && (#[trigger] attempted@[j]).slot_of()@ == i) {
                        None
                    } else {
                        old(self).pending@[i]
                    },
            decreases attempted.len() - k,
        {
            if succeeded[k] {
                let slot = attempted[k].slot();
                self.mark_reconnected(slot);
                proof {
                    use_type_invariant(&slot);
                    assert forall|i: int| 0 <= i < 5 implies #[trigger] self.pending@[i] == if (exists|j: int|
                        0 <= j < k + 1 && succeeded@[j] && (#[trigger] attempted@[j]).slot_of()@ == i) {
                        None
                    } else {
                        old(self).pending@[i]
                    } by {
                        if i == slot@ {
                            assert(attempted@[k as int].slot_of()@ == i);
                        } else {
                            if exists|j: int| 0 <= j < k + 1 && succeeded@[j] && (#[trigger] attempted@[j]).slot_of()@ == i {
                                let j = choose|j: int| 0 <= j < k + 1 && succeeded@[j] && (#[trigger] attempted@[j]).slot_of()@ == i;
                                assert(j != k);
                            }
                        }
                    }
                }
            } else {
                proof {
                    assert forall|i: int| 0 <= i < 5 implies #[trigger] self.pending@[i] == if (exists|j: int|
                        0 <= j < k + 1 && succeeded@[j] && (#[trigger] attempted@[j]).slot_of()@ == i) {
                        None
                    } else {
                        old(self).pending@[i]
                    } by {
                        if exists|j: int| 0 <= j < k + 1 && succeeded@[j] && (#[trigger] attempted@[j]).slot_of()@ == i {
                            let j = choose|j: int| 0 <= j < k + 1 && succeeded@[j] && (#[trigger] attempted@[j]).slot_of()@ == i;
                            assert(j != k);
                        }
                    }
                }
            }
            k += 1;
        }
        assert(self.pending@ =~= Seq::new(
            5,
            |i: int|
                if reconnected_slot(attempted@, succeeded@, i) {
                    None
                } else {
                    old(self).pending@[i]
                },
        ));
    }

    /// Clear all pending reconnection requests.
    pub fn clear(&mut self)
        ensures
            forall|i: int| 0 <= i < 5 ==> #[trigger] final(self).pending_of()[i] is None,
            slots_consistent(final(self).pending_of()),
    {
        self.pending = [None, None, None, None, None];
    }
}

impl Default for ReconnectionManager {
    fn default() -> (m: Self)
        ensures
            forall|i: int| 0 <= i < 5 ==> #[trigger] m.pending_of()[i] is None,
    {
        Self::new()
    }
}

} // verus!
