use crate::jsonrpc::JsonRpcResponse;
use crate::text::{decimal, decimal_text};
use std::sync::mpsc::{Receiver, Sender};
use vstd::prelude::*;

verus! {

#[verifier::external_type_specification]
#[verifier::external_body]
#[verifier::reject_recursive_types(T)]
pub struct ExSender<T>(std::sync::mpsc::Sender<T>);

#[verifier::external_type_specification]
#[verifier::external_body]
#[verifier::reject_recursive_types(T)]
pub struct ExReceiver<T>(std::sync::mpsc::Receiver<T>);

/// What a waiting caller receives: the worker's reply, or the reason that
/// none will come.
pub type Delivery = Result<JsonRpcResponse, String>;

/// Relies on `std::sync::mpsc::channel`: a fresh channel whose receiver gets
/// what its sender sends.
#[verifier::external_body]
fn open_channel() -> (r: (Sender<Delivery>, Receiver<Delivery>)) {
    std::sync::mpsc::channel()
}

/// Relies on `Sender::send`: hands `outcome` to the receiver; a receiver that
/// is gone makes the send fail, which is nobody's error here.
#[verifier::external_body]
fn deliver(sender: &Sender<Delivery>, outcome: Delivery) {
    let _ = sender.send(outcome);
}

struct PendingRequest {
    id: u64,
    sender: Sender<Delivery>,
    deadline: u64,
}

/// Deadline of each in-flight id, read from a sequence of entries.
spec fn table(s: Seq<PendingRequest>) -> Map<u64, u64>
    decreases s.len(),
{
    if s.len() == 0 {
        Map::empty()
    } else {
        table(s.drop_last()).insert(s.last().id, s.last().deadline)
    }
}

spec fn unique_ids(s: Seq<PendingRequest>) -> bool {
    forall|i: int, j: int| 0 <= i < j < s.len() ==> s[i].id != s[j].id
}

/// `d` is a failure carrying the reason `reason`.
pub open spec fn is_failure(d: Delivery, reason: Seq<char>) -> bool {
    d matches Err(e) && e@ == reason
}

/// `added` fails each id of `ids` exactly once, with `reason(id)`, and no
/// other id.
pub open spec fn fails_each_once(
    added: Seq<(u64, Delivery)>,
    ids: Set<u64>,
    reason: spec_fn(u64) -> Seq<char>,
) -> bool {
    &&& forall|i: int|
        0 <= i < added.len() ==> ids.contains(#[trigger] added[i].0) && is_failure(
            added[i].1,
            reason(added[i].0),
        )
    &&& forall|id: u64| #[trigger]
        ids.contains(id) ==> exists|i: int| 0 <= i < added.len() && added[i].0 == id
    &&& forall|i: int, j: int| 0 <= i < j < added.len() ==> added[i].0 != added[j].0
}

/// Ids of `m` whose deadline has come at `now`.
pub open spec fn due_ids(m: Map<u64, u64>, now: u64) -> Set<u64> {
    Set::new(|id: u64| m.dom().contains(id) && now >= m[id])
}

/// Entries of `m` taken out by a sweep at `now`, or all of them.
spec fn due_part(m: Map<u64, u64>, all: bool, now: u64) -> Map<u64, u64> {
    Map::new(|id: u64| m.dom().contains(id) && (all || now >= m[id]), |id: u64| m[id])
}

/// Entries of `m` left by a sweep at `now`, or none.
spec fn kept_part(m: Map<u64, u64>, all: bool, now: u64) -> Map<u64, u64> {
    Map::new(|id: u64| m.dom().contains(id) && !all && now < m[id], |id: u64| m[id])
}

/// `m` without the entries whose deadline has passed at `now`.
pub open spec fn unexpired(m: Map<u64, u64>, now: u64) -> Map<u64, u64> {
    Map::new(|id: u64| m.dom().contains(id) && now < m[id], |id: u64| m[id])
}

/// Deadline for a request registered at `now` that may wait `timeout`,
/// saturating at `u64::MAX`.
pub open spec fn deadline_after(now: u64, timeout: u64) -> u64 {
    if now + timeout > u64::MAX {
        u64::MAX
    } else {
        (now + timeout) as u64
    }
}

/// The reason given to a caller whose request `id` ran out of time.
pub open spec fn timeout_reason(id: u64) -> Seq<char> {
    "JSON-RPC request "@ + decimal_text(id as nat) + " timed out"@
}

/// Builds `timeout_reason(id)`.
pub fn timeout_message(id: u64) -> (r: String)
    ensures
        r@ == timeout_reason(id),
{
    proof {
        reveal_strlit("JSON-RPC request ");
        reveal_strlit(" timed out");
    }
    let mut s = String::from_str("JSON-RPC request ");
    let digits = decimal(id);
    s.append(digits.as_str());
    s.append(" timed out");
    s
}

/// A request resolved right after it was registered is found; once resolved
/// it is gone, so resolving the same id again finds nothing.
pub proof fn law_resolve_once(before: Map<u64, u64>, id: u64, timeout: u64, now: u64)
    ensures
        before.insert(id, deadline_after(now, timeout)).dom().contains(id),
        !before.insert(id, deadline_after(now, timeout)).remove(id).dom().contains(id),
{
}

/// A request registered at `registered_at` with `timeout` is gone after a
/// sweep at any time past its deadline, and the reason its caller gets names
/// its id.
pub proof fn law_sweep_expires(
    before: Map<u64, u64>,
    id: u64,
    timeout: u64,
    registered_at: u64,
    now: u64,
)
    requires
        now >= deadline_after(registered_at, timeout),
    ensures
        !unexpired(before.insert(id, deadline_after(registered_at, timeout)), now).dom().contains(
            id,
        ),
        timeout_reason(id).subrange(17, 17 + decimal_text(id as nat).len() as int) == decimal_text(
            id as nat,
        ),
{
    reveal_strlit("JSON-RPC request ");
    assert(timeout_reason(id).subrange(17, 17 + decimal_text(id as nat).len() as int) =~= decimal_text(
        id as nat,
    ));
}

proof fn lemma_table_push(s: Seq<PendingRequest>, e: PendingRequest)
    ensures
        table(s.push(e)) == table(s).insert(e.id, e.deadline),
{
    assert(s.push(e).drop_last() =~= s);
}

proof fn lemma_table_members(s: Seq<PendingRequest>)
    ensures
        forall|k: int| 0 <= k < s.len() ==> #[trigger] table(s).dom().contains(s[k].id),
        forall|id: u64| #[trigger]
            table(s).dom().contains(id) ==> exists|k: int| 0 <= k < s.len() && s[k].id == id,
        unique_ids(s) ==> forall|k: int|
            0 <= k < s.len() ==> #[trigger] table(s)[s[k].id] == s[k].deadline,
        table(s).dom().finite(),
        unique_ids(s) ==> table(s).dom().len() == s.len(),
    decreases s.len(),
{
    if s.len() > 0 {
        let p = s.drop_last();
        lemma_table_members(p);
        assert forall|k: int| 0 <= k < s.len() implies #[trigger] table(s).dom().contains(
            s[k].id,
        ) by {
            if k < s.len() - 1 {
                assert(s[k] == p[k]);
            }
        }
        assert forall|id: u64| #[trigger] table(s).dom().contains(id) implies exists|k: int|
            0 <= k < s.len() && s[k].id == id by {
            if id != s.last().id {
                let k = choose|k: int| 0 <= k < p.len() && p[k].id == id;
                assert(s[k] == p[k]);
            } else {
                assert(s[s.len() - 1].id == id);
            }
        }
        if unique_ids(s) {
            assert(unique_ids(p));
            assert forall|k: int| 0 <= k < s.len() implies #[trigger] table(s)[s[k].id]
                == s[k].deadline by {
                if k < s.len() - 1 {
                    assert(s[k] == p[k]);
                    assert(s[k].id != s.last().id);
                }
            }
            assert(!table(p).dom().contains(s.last().id)) by {
                if table(p).dom().contains(s.last().id) {
                    let k = choose|k: int| 0 <= k < p.len() && p[k].id == s.last().id;
                    assert(s[k] == p[k]);
                }
            }
        }
    }
}

/// Failures recorded in the order of `removed`, one per entry, make each id
/// of `removed` fail exactly once.
proof fn lemma_fails_each_once(
    added: Seq<(u64, Delivery)>,
    removed: Seq<PendingRequest>,
    ids: Set<u64>,
    reason: spec_fn(u64) -> Seq<char>,
)
    requires
        added.len() == removed.len(),
        unique_ids(removed),
        forall|i: int|
            0 <= i < added.len() ==> added[i].0 == removed[i].id && is_failure(
                added[i].1,
                reason(removed[i].id),
            ),
        forall|id: u64| ids.contains(id) <==> table(removed).dom().contains(id),
    ensures
        fails_each_once(added, ids, reason),
{
    lemma_table_members(removed);
    assert forall|i: int| 0 <= i < added.len() implies ids.contains(#[trigger] added[i].0)
        && is_failure(added[i].1, reason(added[i].0)) by {
        assert(table(removed).dom().contains(removed[i].id));
    }
    assert forall|id: u64| #[trigger] ids.contains(id) implies exists|i: int|
        0 <= i < added.len() && added[i].0 == id by {
        let k = choose|k: int| 0 <= k < removed.len() && removed[k].id == id;
        assert(added[k].0 == id);
    }
}

/// Removing the entry at `i` removes its id from the table and nothing else.
proof fn lemma_table_remove(s: Seq<PendingRequest>, i: int)
    requires
        unique_ids(s),
        0 <= i < s.len(),
    ensures
        unique_ids(s.remove(i)),
        table(s.remove(i)) == table(s).remove(s[i].id),
{
    let t = s.remove(i);
    assert forall|a: int, b: int| 0 <= a < b < t.len() implies t[a].id != t[b].id by {
        let a2 = if a < i { a } else { a + 1 };
        let b2 = if b < i { b } else { b + 1 };
        assert(t[a] == s[a2]);
        assert(t[b] == s[b2]);
    }
    lemma_table_members(s);
    lemma_table_members(t);
    assert forall|id: u64| #[trigger] table(t).dom().contains(id) <==> table(s).remove(
        s[i].id,
    ).dom().contains(id) by {
        if table(t).dom().contains(id) {
            let k = choose|k: int| 0 <= k < t.len() && t[k].id == id;
            let k2 = if k < i { k } else { k + 1 };
            assert(t[k] == s[k2]);
        }
        if table(s).dom().contains(id) && id != s[i].id {
            let k = choose|k: int| 0 <= k < s.len() && s[k].id == id;
            let k2 = if k < i { k } else { k - 1 };
            assert(t[k2] == s[k]);
        }
    }
    assert forall|id: u64| #[trigger] table(t).dom().contains(id) implies table(t)[id] == table(
        s,
    )[id] by {
        let k = choose|k: int| 0 <= k < t.len() && t[k].id == id;
        let k2 = if k < i { k } else { k + 1 };
        assert(t[k] == s[k2]);
    }
    assert(table(t) =~= table(s).remove(s[i].id));
}

/// Tracks in-flight requests and hands each reply, time-out or forced failure
/// to the one caller waiting for it. Every hand-over is recorded, in order,
/// as the id and what its caller was given.
pub struct PendingRequestTracker {
    entries: Vec<PendingRequest>,
    log: Ghost<Seq<(u64, Delivery)>>,
}

impl PendingRequestTracker {
    /// Deadline of each in-flight request, by id.
    pub closed spec fn deadlines(&self) -> Map<u64, u64> {
        table(self.entries@)
    }

    /// What was handed to waiting callers so far: id and outcome, in order.
    pub closed spec fn deliveries(&self) -> Seq<(u64, Delivery)> {
        self.log@
    }

    /// No id is tracked twice.
    pub closed spec fn wf(&self) -> bool {
        unique_ids(self.entries@)
    }

    pub fn new() -> (r: Self)
        ensures
            r.wf(),
            r.deadlines() == Map::<u64, u64>::empty(),
            r.deliveries() == Seq::<(u64, Delivery)>::empty(),
    {
        PendingRequestTracker { entries: Vec::new(), log: Ghost(Seq::empty()) }
    }

    /// Removes the entry of `id`, if there is one, and returns it.
    fn take_entry(&mut self, id: u64) -> (r: Option<PendingRequest>)
        requires
            old(self).wf(),
        ensures
            final(self).wf(),
            r is Some == old(self).deadlines().dom().contains(id),
            r matches Some(e) ==> e.id == id,
            final(self).deadlines() == old(self).deadlines().remove(id),
            final(self).deliveries() == old(self).deliveries(),
    {
        let mut i: usize = 0;
        while i < self.entries.len()
            invariant
                self.entries@ == old(self).entries@,
                self.log@ == old(self).log@,
                unique_ids(self.entries@),
                0 <= i <= self.entries@.len(),
                forall|k: int| 0 <= k < i ==> self.entries@[k].id != id,
            decreases self.entries@.len() - i,
        {
            if self.entries[i].id == id {
                proof {
                    lemma_table_members(self.entries@);
                    lemma_table_remove(self.entries@, i as int);
                }
                let e = self.entries.remove(i);
                return Some(e);
            }
            i = i + 1;
        }
        proof {
            lemma_table_members(self.entries@);
            assert(!table(self.entries@).dom().contains(id));
            assert(table(self.entries@).remove(id) =~= table(self.entries@));
        }
        None
    }

    /// Takes out the entries due at `now` (all of them when `all`), keeping
    /// the others.
    fn split_due(&mut self, all: bool, now: u64) -> (removed: Vec<PendingRequest>)
        requires
            old(self).wf(),
        ensures
            final(self).wf(),
            final(self).deadlines() == kept_part(old(self).deadlines(), all, now),
            final(self).deliveries() == old(self).deliveries(),
            unique_ids(removed@),
            table(removed@) == due_part(old(self).deadlines(), all, now),
    {
        let mut rest: Vec<PendingRequest> = Vec::new();
        std::mem::swap(&mut rest, &mut self.entries);
        let mut removed: Vec<PendingRequest> = Vec::new();
        let ghost orig = rest@;
        let ghost mut done: int = 0;
        proof {
            lemma_table_members(orig);
            assert(self.entries@ =~= Seq::<PendingRequest>::empty());
            assert(orig.take(0) =~= Seq::<PendingRequest>::empty());
            assert(table(self.entries@) =~= kept_part(table(orig.take(0)), all, now));
            assert(table(removed@) =~= due_part(table(orig.take(0)), all, now));
        }
        while rest.len() > 0
            invariant
                unique_ids(orig),
                table(orig) == old(self).deadlines(),
                self.log@ == old(self).log@,
                0 <= done <= orig.len(),
                rest@ == orig.skip(done),
                unique_ids(self.entries@),
                unique_ids(removed@),
                table(self.entries@) == kept_part(table(orig.take(done)), all, now),
                table(removed@) == due_part(table(orig.take(done)), all, now),
            decreases rest@.len(),
        {
            let e = rest.remove(0);
            proof {
                let pre = orig.take(done);
                assert(e == orig[done]);
                assert(orig.take(done + 1) =~= pre.push(e));
                lemma_table_push(pre, e);
                assert(rest@ =~= orig.skip(done + 1));
                lemma_table_members(pre);
                lemma_table_members(self.entries@);
                lemma_table_members(removed@);
                assert(!table(pre).dom().contains(e.id)) by {
                    if table(pre).dom().contains(e.id) {
                        let k = choose|k: int| 0 <= k < pre.len() && pre[k].id == e.id;
                        assert(pre[k] == orig[k]);
                    }
                }
            }
            if all || now >= e.deadline {
                proof {
                    let out = removed@;
                    lemma_table_push(out, e);
                    assert forall|a: int, b: int|
                        0 <= a < b < out.push(e).len() implies out.push(e)[a].id != out.push(
                        e,
                    )[b].id by {
                        if b == out.len() {
                            assert(table(out).dom().contains(out[a].id));
                        } else {
                            assert(out.push(e)[a] == out[a]);
                            assert(out.push(e)[b] == out[b]);
                        }
                    }
                    assert(table(out).insert(e.id, e.deadline) =~= due_part(
                        table(orig.take(done + 1)),
                        all,
                        now,
                    ));
                    assert(table(self.entries@) =~= kept_part(
                        table(orig.take(done + 1)),
                        all,
                        now,
                    ));
                }
                removed.push(e);
            } else {
                proof {
                    let kept = self.entries@;
                    lemma_table_push(kept, e);
                    assert forall|a: int, b: int|
                        0 <= a < b < kept.push(e).len() implies kept.push(e)[a].id != kept.push(
                        e,
                    )[b].id by {
                        if b == kept.len() {
                            assert(table(kept).dom().contains(kept[a].id));
                        } else {
                            assert(kept.push(e)[a] == kept[a]);
                            assert(kept.push(e)[b] == kept[b]);
                        }
                    }
                    assert(table(kept).insert(e.id, e.deadline) =~= kept_part(
                        table(orig.take(done + 1)),
                        all,
                        now,
                    ));
                    assert(table(removed@) =~= due_part(table(orig.take(done + 1)), all, now));
                }
                self.entries.push(e);
            }
            proof {
                done = done + 1;
            }
        }
        proof {
            assert(orig.take(done) =~= orig);
        }
        removed
    }

    /// Registers `id`, due at `now + timeout`, and returns the receiver on
    /// which its outcome arrives. A request already tracked under `id` is
    /// replaced, without a delivery; its receiver then sees a closed channel.
    pub fn register(&mut self, id: u64, timeout: u64, now: u64) -> (r: Receiver<Delivery>)
        requires
            old(self).wf(),
        ensures
            final(self).wf(),
            final(self).deadlines() == old(self).deadlines().insert(
                id,
                deadline_after(now, timeout),
            ),
            final(self).deliveries() == old(self).deliveries(),
    {
        let _replaced = self.take_entry(id);
        let (sender, receiver) = open_channel();
        let deadline = now.saturating_add(timeout);
        let entry = PendingRequest { id, sender, deadline };
        proof {
            lemma_table_members(self.entries@);
            lemma_table_push(self.entries@, entry);
            assert forall|k: int| 0 <= k < self.entries@.len() implies self.entries@[k].id
                != id by {
                assert(table(self.entries@).dom().contains(self.entries@[k].id));
            }
        }
        self.entries.push(entry);
        proof {
            assert(table(self.entries@) =~= old(self).deadlines().insert(
                id,
                deadline_after(now, timeout),
            ));
        }
        receiver
    }

    /// Hands `response` to the caller waiting on `id` and stops tracking it.
    /// Returns whether `id` was tracked; an unknown id is ignored and nobody
    /// is handed anything.
    pub fn resolve(&mut self, id: u64, response: JsonRpcResponse) -> (r: bool)
        requires
            old(self).wf(),
        ensures
            final(self).wf(),
            r == old(self).deadlines().dom().contains(id),
            final(self).deadlines() == old(self).deadlines().remove(id),
            final(self).deliveries() == (if r {
                old(self).deliveries().push((id, Ok(response)))
            } else {
                old(self).deliveries()
            }),
    {
        match self.take_entry(id) {
            Some(entry) => {
                let outcome: Delivery = Ok(response);
                let ghost handed = outcome;
                deliver(&entry.sender, outcome);
                self.log = Ghost(self.log@.push((id, handed)));
                true
            },
            None => false,
        }
    }

    /// Fails, with `timeout_reason(id)`, every request whose deadline has
    /// come at `now`, each once, and stops tracking it.
    pub fn check_timeouts(&mut self, now: u64)
        requires
            old(self).wf(),
        ensures
            final(self).wf(),
            final(self).deadlines() == unexpired(old(self).deadlines(), now),
            final(self).deliveries().take(old(self).deliveries().len() as int)
                == old(self).deliveries(),
            fails_each_once(
                final(self).deliveries().skip(old(self).deliveries().len() as int),
                due_ids(old(self).deadlines(), now),
                |id: u64| timeout_reason(id),
            ),
    {
        let removed = self.split_due(false, now);
        let ghost start = self.log@;
        let mut k: usize = 0;
        while k < removed.len()
            invariant
                unique_ids(self.entries@),
                table(self.entries@) == kept_part(old(self).deadlines(), false, now),
                0 <= k <= removed@.len(),
                self.log@.len() == start.len() + k,
                self.log@.take(start.len() as int) == start,
                forall|i: int|
                    0 <= i < k ==> self.log@[start.len() + i].0 == removed@[i].id && is_failure(
                        self.log@[start.len() + i].1,
                        timeout_reason(removed@[i].id),
                    ),
            decreases removed@.len() - k,
        {
            let e = &removed[k];
            let outcome: Delivery = Err(timeout_message(e.id));
            let ghost handed = outcome;
            deliver(&e.sender, outcome);
            proof {
                assert(self.log@.push((e.id, handed)).take(start.len() as int) =~= self.log@.take(
                    start.len() as int,
                ));
            }
            let ghost prev = self.log@;
            self.log = Ghost(self.log@.push((e.id, handed)));
            proof {
                assert(is_failure(handed, timeout_reason(e.id)));
                assert forall|i: int| 0 <= i < k + 1 implies self.log@[start.len() + i].0
                    == removed@[i].id && is_failure(
                    self.log@[start.len() + i].1,
                    timeout_reason(removed@[i].id),
                ) by {
                    if i < k {
                        assert(self.log@[start.len() + i] == prev[start.len() + i]);
                    }
                }
            }
            k = k + 1;
        }
        proof {
            assert(kept_part(old(self).deadlines(), false, now) =~= unexpired(
                old(self).deadlines(),
                now,
            ));
            let added = self.log@.skip(start.len() as int);
            assert forall|id: u64|
                due_ids(old(self).deadlines(), now).contains(id) <==> table(
                    removed@,
                ).dom().contains(id) by {}
            lemma_fails_each_once(
                added,
                removed@,
                due_ids(old(self).deadlines(), now),
                |id: u64| timeout_reason(id),
            );
        }
    }

    /// Fails every tracked request with `reason`, each once and whatever its
    /// deadline, and empties the table.
    pub fn fail_all(&mut self, reason: &str)
        requires
            old(self).wf(),
        ensures
            final(self).wf(),
            final(self).deadlines() == Map::<u64, u64>::empty(),
            final(self).deliveries().take(old(self).deliveries().len() as int)
                == old(self).deliveries(),
            fails_each_once(
                final(self).deliveries().skip(old(self).deliveries().len() as int),
                old(self).deadlines().dom(),
                |id: u64| reason@,
            ),
    {
        let removed = self.split_due(true, 0);
        let ghost start = self.log@;
        let mut k: usize = 0;
        while k < removed.len()
            invariant
                unique_ids(self.entries@),
                table(self.entries@) == kept_part(old(self).deadlines(), true, 0),
                0 <= k <= removed@.len(),
                self.log@.len() == start.len() + k,
                self.log@.take(start.len() as int) == start,
                forall|i: int|
                    0 <= i < k ==> self.log@[start.len() + i].0 == removed@[i].id && is_failure(
                        self.log@[start.len() + i].1,
                        reason@,
                    ),
            decreases removed@.len() - k,
        {
            let e = &removed[k];
            let outcome: Delivery = Err(String::from_str(reason));
            let ghost handed = outcome;
            deliver(&e.sender, outcome);
            proof {
                assert(self.log@.push((e.id, handed)).take(start.len() as int) =~= self.log@.take(
                    start.len() as int,
                ));
            }
            let ghost prev = self.log@;
            self.log = Ghost(self.log@.push((e.id, handed)));
            proof {
                assert(is_failure(handed, reason@));
                assert forall|i: int| 0 <= i < k + 1 implies self.log@[start.len() + i].0
                    == removed@[i].id && is_failure(
                    self.log@[start.len() + i].1,
                    reason@,
                ) by {
                    if i < k {
                        assert(self.log@[start.len() + i] == prev[start.len() + i]);
                    }
                }
            }
            k = k + 1;
        }
        proof {
            assert(kept_part(old(self).deadlines(), true, 0) =~= Map::<u64, u64>::empty());
            let added = self.log@.skip(start.len() as int);
            assert forall|id: u64|
                old(self).deadlines().dom().contains(id) <==> table(removed@).dom().contains(
                    id,
                ) by {}
            lemma_fails_each_once(added, removed@, old(self).deadlines().dom(), |id: u64| reason@);
        }
    }

    /// Number of requests in flight.
    pub fn len(&self) -> (r: usize)
        requires
            self.wf(),
        ensures
            r == self.deadlines().dom().len(),
    {
        proof {
            lemma_table_members(self.entries@);
        }
        self.entries.len()
    }
}

} // verus!
