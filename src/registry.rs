//! The connection registry: the set of live sessions, keyed by identifier.
use std::collections::HashMap;
use vstd::prelude::*;
use vstd::std_specs::hash::group_hash_axioms;

verus! {

broadcast use group_hash_axioms;

/// Bookkeeping for one live client connection.
#[derive(Clone, Copy, PartialEq, Eq, Structural, Debug)]
pub struct Session {
    /// Identifier drawn when the connection was accepted.
    pub id: u128,
    /// When the connection was accepted, in milliseconds since the epoch.
    pub connected_at: u64,
}

/// Registering a session whose identifier is already live.
#[derive(Clone, Copy, PartialEq, Eq, Structural, Debug)]
pub struct AlreadyRegistered;

/// The live sessions, keyed by their identifier.
pub struct ConnectionRegistry {
    sessions: HashMap<u128, Session>,
}

impl View for ConnectionRegistry {
    type V = Map<u128, Session>;

    closed spec fn view(&self) -> Map<u128, Session> {
        self.sessions@
    }
}

/// One mutation of the registry.
pub enum RegistryOp {
    Register(u128),
    Deregister(u128),
}

/// The identifiers that are live after `ops`, run in order from an empty
/// registry, where registering a live identifier and deregistering an
/// absent one change nothing.
pub open spec fn replay(ops: Seq<RegistryOp>) -> Set<u128>
    decreases ops.len(),
{
    if ops.len() == 0 {
        Set::empty()
    } else {
        let s = replay(ops.drop_last());
        match ops.last() {
            RegistryOp::Register(id) => s.insert(id),
            RegistryOp::Deregister(id) => s.remove(id),
        }
    }
}

/// How many register calls `ops` holds.
pub open spec fn register_calls(ops: Seq<RegistryOp>) -> nat
    decreases ops.len(),
{
    if ops.len() == 0 {
        0
    } else {
        register_calls(ops.drop_last()) + if ops.last() is Register {
            1nat
        } else {
            0nat
        }
    }
}

/// How many deregister calls of `ops` removed a live identifier.
pub open spec fn completed_deregisters(ops: Seq<RegistryOp>) -> nat
    decreases ops.len(),
{
    if ops.len() == 0 {
        0
    } else {
        completed_deregisters(ops.drop_last()) + match ops.last() {
            RegistryOp::Deregister(id) => if replay(ops.drop_last()).contains(id) {
                1nat
            } else {
                0nat
            },
            RegistryOp::Register(_) => 0nat,
        }
    }
}

/// The count of live sessions never exceeds the register calls made so far
/// minus the deregister calls that completed: nothing is counted twice and
/// the count never goes below zero.
pub proof fn lemma_count_bounded(ops: Seq<RegistryOp>)
    ensures
        replay(ops).finite(),
        completed_deregisters(ops) <= register_calls(ops),
        replay(ops).len() <= register_calls(ops) - completed_deregisters(ops),
    decreases ops.len(),
{
    if ops.len() > 0 {
        let prev = ops.drop_last();
        lemma_count_bounded(prev);
        let s = replay(prev);
        match ops.last() {
            RegistryOp::Register(id) => {
                if s.contains(id) {
                    assert(s.insert(id) =~= s);
                }
            },
            RegistryOp::Deregister(id) => {
                if s.contains(id) {
                    assert(s.len() >= 1) by {
                        vstd::set_lib::lemma_set_empty_equivalency_len(s);
                    }
                } else {
                    assert(s.remove(id) =~= s);
                }
            },
        }
    }
}

/// Every register call of `ops` names an identifier that is not live at
/// that point.
pub open spec fn registers_fresh(ops: Seq<RegistryOp>) -> bool
    decreases ops.len(),
{
    ops.len() == 0 || (registers_fresh(ops.drop_last()) && match ops.last() {
        RegistryOp::Register(id) => !replay(ops.drop_last()).contains(id),
        RegistryOp::Deregister(_) => true,
    })
}

/// With unique identifiers and no call in flight, the count of live
/// sessions is exactly the register calls made minus the deregister calls
/// that completed.
pub proof fn lemma_count_exact(ops: Seq<RegistryOp>)
    requires
        registers_fresh(ops),
    ensures
        replay(ops).finite(),
        replay(ops).len() == register_calls(ops) - completed_deregisters(ops),
    decreases ops.len(),
{
    lemma_count_bounded(ops);
    if ops.len() > 0 {
        let prev = ops.drop_last();
        lemma_count_exact(prev);
        let s = replay(prev);
        match ops.last() {
            RegistryOp::Register(id) => {},
            RegistryOp::Deregister(id) => {
                if !s.contains(id) {
                    assert(s.remove(id) =~= s);
                }
            },
        }
    }
}

/// A registry whose live identifiers are those that `ops` leaves, after one
/// more register or deregister call as `ConnectionRegistry` states them,
/// holds those that `ops` extended by that call leaves; its count stays
/// within the bound of `lemma_count_bounded`.
pub proof fn lemma_registry_tracks_replay(
    ops: Seq<RegistryOp>,
    before: Map<u128, Session>,
    after: Map<u128, Session>,
    op: RegistryOp,
    session: Session,
)
    requires
        before.dom() == replay(ops),
        match op {
            RegistryOp::Register(id) => session.id == id && if before.contains_key(id) {
                after == before
            } else {
                after == before.insert(id, session)
            },
            RegistryOp::Deregister(id) => after == before.remove(id),
        },
    ensures
        after.dom() == replay(ops.push(op)),
        after.len() <= register_calls(ops.push(op)) - completed_deregisters(ops.push(op)),
{
    let next = ops.push(op);
    assert(next.drop_last() =~= ops);
    match op {
        RegistryOp::Register(id) => {
            if before.contains_key(id) {
                assert(replay(ops).insert(id) =~= replay(ops));
            } else {
                assert(after.dom() =~= replay(ops).insert(id));
            }
        },
        RegistryOp::Deregister(id) => {
            assert(after.dom() =~= replay(ops).remove(id));
        },
    }
    lemma_count_bounded(next);
    assert(after.dom().len() == after.len());
}

impl ConnectionRegistry {
    /// Each entry is stored under its own identifier, and there are
    /// finitely many.
    pub open spec fn wf(&self) -> bool {
        &&& self@.dom().finite()
        &&& forall|k: u128| #[trigger] self@.contains_key(k) ==> self@[k].id == k
    }

    /// The live identifiers.
    pub open spec fn ids(&self) -> Set<u128> {
        self@.dom()
    }

    pub fn new() -> (r: ConnectionRegistry)
        ensures
            r.wf(),
            r@ == Map::<u128, Session>::empty(),
    {
        ConnectionRegistry { sessions: HashMap::new() }
    }

    /// Adds a session; fails, changing nothing, when its identifier is live.
    pub fn register(&mut self, session: Session) -> (r: Result<(), AlreadyRegistered>)
        requires
            old(self).wf(),
        ensures
            final(self).wf(),
            r is Err <==> old(self)@.contains_key(session.id),
            r is Ok ==> final(self)@ == old(self)@.insert(session.id, session),
            r is Ok ==> final(self)@.len() == old(self)@.len() + 1,
            r is Err ==> final(self)@ == old(self)@,
    {
        if self.sessions.contains_key(&session.id) {
            Err(AlreadyRegistered)
        } else {
            self.sessions.insert(session.id, session);
            proof {
                assert forall|k: u128| #[trigger] self@.contains_key(k) implies self@[k].id == k by {
                    if k != session.id {
                        assert(old(self)@.contains_key(k));
                    }
                }
            }
            Ok(())
        }
    }

    /// Removes a session if it is live; returns whether it was.
    pub fn deregister(&mut self, id: u128) -> (r: bool)
        requires
            old(self).wf(),
        ensures
            final(self).wf(),
            r == old(self)@.contains_key(id),
            final(self)@ == old(self)@.remove(id),
            final(self)@.len() == if r {
                old(self)@.len() - 1
            } else {
                old(self)@.len() as int
            },
    {
        let removed = self.sessions.remove(&id);
        proof {
            assert(final(self)@ =~= old(self)@.remove(id));
        }
        removed.is_some()
    }

    /// Whether a session is live.
    pub fn contains(&self, id: u128) -> (r: bool)
        ensures
            r == self@.contains_key(id),
    {
        self.sessions.contains_key(&id)
    }

    /// Number of live sessions.
    pub fn count(&self) -> (r: usize)
        ensures
            r == self@.len(),
    {
        self.sessions.len()
    }
}

} // verus!
