//! The session registry: the single source of truth mapping a session id to
//! its live session.
//!
//! A session couples the write handle of its pseudo-terminal with its
//! retained-output buffer.  The handle's type is a parameter: the registry
//! owns it and hands out exclusive access for the brief device operations,
//! but none of the bookkeeping depends on what it is.  Insertion happens only
//! on spawn, removal only on kill; writing, resizing or reading a session
//! that is not present is a silent no-op, never an error.

use vstd::prelude::*;

use crate::buffer::{retained, OutputBuffer};
use crate::text::str_eq;

verus! {

/// One live session: the write handle of its pty device and its
/// retained-output buffer, owned exclusively for the session's lifetime.
struct Session<H> {
    id: String,
    handle: H,
    buffer: OutputBuffer,
}

/// The ids of the sessions of `ss`, in insertion order.
spec fn seq_ids<H>(ss: Seq<Session<H>>) -> Seq<Seq<char>> {
    ss.map_values(|s: Session<H>| s.id@)
}

/// At most one session per id, and every buffer within its capacity.
spec fn seq_wf<H>(ss: Seq<Session<H>>) -> bool {
    &&& forall|i: int, j: int| 0 <= i < j < ss.len() ==> seq_ids(ss)[i] != seq_ids(ss)[j]
    &&& forall|i: int| 0 <= i < ss.len() ==> ss[i].buffer.wf()
}

/// The position of the session of `ss` with the given id, where one exists.
spec fn seq_index_of<H>(ss: Seq<Session<H>>, id: Seq<char>) -> int {
    choose|i: int| 0 <= i < ss.len() && ss[i].id@ == id
}

/// The map from each live id of `ss` to its retained output.
spec fn seq_view<H>(ss: Seq<Session<H>>) -> Map<Seq<char>, Seq<u8>> {
    Map::new(
        |id: Seq<char>| seq_ids(ss).contains(id),
        |id: Seq<char>| ss[seq_index_of(ss, id)].buffer@,
    )
}

proof fn lemma_seq_index_of<H>(ss: Seq<Session<H>>, id: Seq<char>)
    requires
        seq_ids(ss).contains(id),
    ensures
        0 <= seq_index_of(ss, id) < ss.len(),
        ss[seq_index_of(ss, id)].id@ == id,
{
    let w = choose|i: int| 0 <= i < seq_ids(ss).len() && seq_ids(ss)[i] == id;
    assert(ss[w].id@ == id);
}

proof fn lemma_ids_unique<H>(ss: Seq<Session<H>>, a: int, b: int)
    requires
        seq_wf(ss),
        0 <= a < ss.len(),
        0 <= b < ss.len(),
        a != b,
    ensures
        seq_ids(ss)[a] != seq_ids(ss)[b],
{
    if a < b {
        assert(seq_ids(ss)[a] != seq_ids(ss)[b]);
    } else {
        assert(seq_ids(ss)[b] != seq_ids(ss)[a]);
    }
}

/// Replacing the session at a live position with one of the same id and the
/// same buffer — whatever its handle — changes nothing the registry's model
/// speaks of.
proof fn lemma_handle_swap_preserves_model<H>(ss: Seq<Session<H>>, i: int, s2: Session<H>)
    requires
        seq_wf(ss),
        0 <= i < ss.len(),
        s2.id@ == ss[i].id@,
        s2.buffer == ss[i].buffer,
    ensures
        seq_ids(ss.update(i, s2)) == seq_ids(ss),
        seq_wf(ss.update(i, s2)),
        seq_view(ss.update(i, s2)) == seq_view(ss),
{
    let ss2 = ss.update(i, s2);
    assert(seq_ids(ss2) =~= seq_ids(ss));
    assert forall|x: Seq<char>| #[trigger] seq_ids(ss2).contains(x) implies ss2[seq_index_of(
        ss2,
        x,
    )].buffer@ == ss[seq_index_of(ss, x)].buffer@ by {
        lemma_seq_index_of(ss2, x);
        lemma_seq_index_of(ss, x);
        let k = seq_index_of(ss2, x);
        let k0 = seq_index_of(ss, x);
        assert(seq_ids(ss)[k] == x);
        assert(seq_ids(ss)[k0] == x);
        if k != k0 {
            lemma_ids_unique(ss, k, k0);
        }
    }
    assert(seq_view(ss2) =~= seq_view(ss));
}

/// The mapping from session id to session.  Its mathematical view is the map
/// from each live id to the bytes its buffer retains.
pub struct Registry<H> {
    sessions: Vec<Session<H>>,
}

/// One session-lifecycle operation, by the id it addresses.
pub enum RegistryOp {
    Spawn { id: Seq<char> },
    Write { id: Seq<char> },
    Resize { id: Seq<char> },
    Kill { id: Seq<char> },
}

/// What one operation does to the registry's model, going by the contracts of
/// `spawn`, `handle_mut` (which carries both write and resize) and `kill`.
pub open spec fn apply_op(m: Map<Seq<char>, Seq<u8>>, op: RegistryOp) -> Map<Seq<char>, Seq<u8>> {
    match op {
        RegistryOp::Spawn { id } => m.insert(id, Seq::<u8>::empty()),
        RegistryOp::Write { id: _ } => m,
        RegistryOp::Resize { id: _ } => m,
        RegistryOp::Kill { id } => m.remove(id),
    }
}

/// The registry model after a whole sequence of operations, oldest first.
pub open spec fn apply_ops(m: Map<Seq<char>, Seq<u8>>, ops: Seq<RegistryOp>) -> Map<
    Seq<char>,
    Seq<u8>,
>
    decreases ops.len(),
{
    if ops.len() == 0 {
        m
    } else {
        apply_op(apply_ops(m, ops.drop_last()), ops.last())
    }
}

/// The ids spawned and not later killed by a sequence of operations.
pub open spec fn spawned_not_killed(ops: Seq<RegistryOp>) -> Set<Seq<char>>
    decreases ops.len(),
{
    if ops.len() == 0 {
        Set::<Seq<char>>::empty()
    } else {
        match ops.last() {
            RegistryOp::Spawn { id } => spawned_not_killed(ops.drop_last()).insert(id),
            RegistryOp::Kill { id } => spawned_not_killed(ops.drop_last()).remove(id),
            RegistryOp::Write { id: _ } => spawned_not_killed(ops.drop_last()),
            RegistryOp::Resize { id: _ } => spawned_not_killed(ops.drop_last()),
        }
    }
}

/// For every sequence of spawn, write, resize and kill operations starting
/// from an empty registry, the registry holds exactly the set of ids that
/// were spawned and not later killed — no more, no fewer.
pub proof fn lemma_registry_tracks_lifecycle(ops: Seq<RegistryOp>)
    ensures
        apply_ops(Map::<Seq<char>, Seq<u8>>::empty(), ops).dom() == spawned_not_killed(ops),
    decreases ops.len(),
{
    if ops.len() == 0 {
        assert(apply_ops(Map::<Seq<char>, Seq<u8>>::empty(), ops).dom() =~= spawned_not_killed(
            ops,
        ));
    } else {
        lemma_registry_tracks_lifecycle(ops.drop_last());
        let before = apply_ops(Map::<Seq<char>, Seq<u8>>::empty(), ops.drop_last());
        match ops.last() {
            RegistryOp::Spawn { id } => {
                assert(before.insert(id, Seq::<u8>::empty()).dom() =~= before.dom().insert(id));
            },
            RegistryOp::Kill { id } => {
                assert(before.remove(id).dom() =~= before.dom().remove(id));
            },
            RegistryOp::Write { id: _ } => {},
            RegistryOp::Resize { id: _ } => {},
        }
    }
}

impl<H> Registry<H> {
    /// The ids of the live sessions, in insertion order.
    pub closed spec fn ids(&self) -> Seq<Seq<char>> {
        seq_ids(self.sessions@)
    }

    /// At most one session per id, and every buffer within its capacity.
    pub closed spec fn wf(&self) -> bool {
        seq_wf(self.sessions@)
    }

    /// The map from each live id to its retained output.
    pub closed spec fn view(&self) -> Map<Seq<char>, Seq<u8>> {
        seq_view(self.sessions@)
    }

    /// An empty registry: no session is live.
    pub fn new() -> (r: Registry<H>)
        ensures
            r@ == Map::<Seq<char>, Seq<u8>>::empty(),
            r.wf(),
    {
        let r = Registry { sessions: Vec::new() };
        proof {
            assert(r@ =~= Map::<Seq<char>, Seq<u8>>::empty());
        }
        r
    }

    /// Finds the position of the session with this id, if it is live.
    fn find(&self, id: &str) -> (r: Option<usize>)
        requires
            self.wf(),
        ensures
            match r {
                Some(i) => i < self.sessions@.len() && self.sessions@[i as int].id@ == id@
                    && self.ids().contains(id@) && seq_index_of(self.sessions@, id@) == i,
                None => !self.ids().contains(id@),
            },
    {
        let mut i: usize = 0;
        while i < self.sessions.len()
            invariant
                self.wf(),
                i <= self.sessions@.len(),
                forall|j: int| 0 <= j < i ==> seq_ids(self.sessions@)[j] != id@,
            decreases self.sessions@.len() - i,
        {
            if str_eq(self.sessions[i].id.as_str(), id) {
                proof {
                    assert(seq_ids(self.sessions@)[i as int] == id@);
                    let k = seq_index_of(self.sessions@, id@);
                    if k != i {
                        assert(seq_ids(self.sessions@)[k] == id@);
                    }
                }
                return Some(i);
            }
            assert(seq_ids(self.sessions@)[i as int] == self.sessions@[i as int].id@);
            i = i + 1;
        }
        assert(forall|j: int| 0 <= j < self.ids().len() ==> self.ids()[j] != id@);
        None
    }

    /// Whether a session with this id is live.
    pub fn contains(&self, id: &str) -> (r: bool)
        requires
            self.wf(),
        ensures
            r == self@.contains_key(id@),
    {
        let r = self.find(id);
        proof {
            if self.ids().contains(id@) {
                assert(self@.contains_key(id@));
            }
        }
        r.is_some()
    }

    /// Stores a freshly spawned session under its id, with an empty buffer.
    /// A spawn on an id that is already live replaces that session, so the
    /// registry never holds two sessions for one id.
    pub fn spawn(&mut self, id: String, handle: H)
        requires
            old(self).wf(),
        ensures
            final(self)@ == old(self)@.insert(id@, Seq::<u8>::empty()),
            final(self).wf(),
            final(self)@.contains_key(id@),
    {
        let found = self.find(id.as_str());
        let ghost old_ss = self.sessions@;
        match found {
            Some(i) => {
                let s = &mut self.sessions[i];
                s.handle = handle;
                s.buffer = OutputBuffer::new();
                proof {
                    let ss = self.sessions@;
                    assert(seq_ids(ss) =~= seq_ids(old_ss));
                    assert(seq_wf(ss));
                    assert forall|x: Seq<char>| #[trigger] seq_ids(ss).contains(x) && x != id@
                        implies ss[seq_index_of(ss, x)].buffer@ == old_ss[seq_index_of(
                        old_ss,
                        x,
                    )].buffer@ by {
                        lemma_seq_index_of(ss, x);
                        lemma_seq_index_of(old_ss, x);
                        let k = seq_index_of(ss, x);
                        let k0 = seq_index_of(old_ss, x);
                        assert(seq_ids(old_ss)[k] == x);
                        assert(seq_ids(old_ss)[k0] == x);
                        if k != k0 {
                            lemma_ids_unique(old_ss, k, k0);
                        }
                        if k == i {
                            assert(seq_ids(old_ss)[i as int] == id@);
                        }
                    }
                    assert(seq_index_of(ss, id@) == i) by {
                        assert(seq_ids(ss)[i as int] == id@);
                        let k = seq_index_of(ss, id@);
                        if k != i {
                            assert(seq_ids(ss)[k] == id@);
                            lemma_ids_unique(ss, k, i as int);
                        }
                    }
                    assert(self@ =~= old(self)@.insert(id@, Seq::<u8>::empty()));
                }
            },
            None => {
                self.sessions.push(Session { id, handle, buffer: OutputBuffer::new() });
                proof {
                    let ss = self.sessions@;
                    assert(seq_ids(ss) =~= seq_ids(old_ss).push(id@));
                    assert forall|x: Seq<char>| #[trigger] seq_ids(ss).contains(x) && x != id@
                        implies seq_ids(old_ss).contains(x) by {
                        let k = choose|k: int|
                            0 <= k < seq_ids(ss).len() && seq_ids(ss)[k] == x;
                        assert(seq_ids(old_ss)[k] == x);
                    }
                    assert(seq_wf(ss));
                    assert forall|x: Seq<char>| #[trigger] seq_ids(ss).contains(x) && x != id@
                        implies ss[seq_index_of(ss, x)].buffer@ == old_ss[seq_index_of(
                        old_ss,
                        x,
                    )].buffer@ by {
                        lemma_seq_index_of(ss, x);
                        lemma_seq_index_of(old_ss, x);
                        assert(seq_ids(old_ss)[seq_index_of(ss, x)] == x);
                        assert(seq_ids(old_ss)[seq_index_of(old_ss, x)] == x);
                    }
                    assert forall|x: Seq<char>| #[trigger] seq_ids(old_ss).contains(x)
                        implies seq_ids(ss).contains(x) by {
                        let k = choose|k: int|
                            0 <= k < seq_ids(old_ss).len() && seq_ids(old_ss)[k] == x;
                        assert(seq_ids(ss)[k] == x);
                    }
                    assert(seq_ids(ss).contains(id@)) by {
                        assert(seq_ids(ss).last() == id@);
                    }
                    assert(seq_index_of(ss, id@) == old_ss.len()) by {
                        assert(seq_ids(ss)[old_ss.len() as int] == id@);
                        let k = seq_index_of(ss, id@);
                        if k < old_ss.len() {
                            assert(seq_ids(old_ss)[k] == id@);
                            assert(seq_ids(old_ss).contains(id@));
                            assert(seq_ids(ss)[k] == id@);
                        }
                    }
                    assert(self@ =~= old(self)@.insert(id@, Seq::<u8>::empty()));
                }
            },
        }
    }

    /// Removes the session with this id, releasing what it owns.  Killing an
    /// id that is not live changes nothing: the operation is idempotent.
    pub fn kill(&mut self, id: &str)
        requires
            old(self).wf(),
        ensures
            final(self)@ == old(self)@.remove(id@),
            final(self).wf(),
    {
        let found = self.find(id);
        let ghost old_ss = self.sessions@;
        match found {
            Some(i) => {
                let _ = self.sessions.remove(i);
                proof {
                    let ss = self.sessions@;
                    assert(seq_ids(ss) =~= seq_ids(old_ss).remove(i as int));
                    assert forall|x: Seq<char>| #[trigger] seq_ids(ss).contains(x)
                        implies seq_ids(old_ss).contains(x) && x != id@ by {
                        let k = choose|k: int|
                            0 <= k < seq_ids(ss).len() && seq_ids(ss)[k] == x;
                        assert(seq_ids(old_ss)[i as int] == id@);
                        if k < i {
                            assert(seq_ids(old_ss)[k] == x);
                            lemma_ids_unique(old_ss, k, i as int);
                        } else {
                            assert(seq_ids(old_ss)[k + 1] == x);
                            lemma_ids_unique(old_ss, k + 1, i as int);
                        }
                    }
                    assert(seq_wf(ss));
                    assert forall|x: Seq<char>| seq_ids(old_ss).contains(x) && x != id@
                        implies #[trigger] seq_ids(ss).contains(x) by {
                        let k = choose|k: int|
                            0 <= k < seq_ids(old_ss).len() && seq_ids(old_ss)[k] == x;
                        assert(seq_ids(old_ss)[i as int] == id@);
                        if k < i {
                            assert(seq_ids(ss)[k] == x);
                        } else {
                            assert(seq_ids(ss)[k - 1] == x);
                        }
                    }
                    assert forall|x: Seq<char>| #[trigger] seq_ids(ss).contains(x)
                        implies ss[seq_index_of(ss, x)].buffer@ == old_ss[seq_index_of(
                        old_ss,
                        x,
                    )].buffer@ by {
                        lemma_seq_index_of(ss, x);
                        lemma_seq_index_of(old_ss, x);
                        let k = seq_index_of(ss, x);
                        let k0 = seq_index_of(old_ss, x);
                        assert(seq_ids(old_ss)[k0] == x);
                        if k < i {
                            assert(seq_ids(old_ss)[k] == x);
                            if k0 != k {
                                lemma_ids_unique(old_ss, k0, k);
                            }
                        } else {
                            assert(seq_ids(old_ss)[k + 1] == x);
                            if k0 != k + 1 {
                                lemma_ids_unique(old_ss, k0, k + 1);
                            }
                        }
                    }
                    assert(final(self)@ =~= old(self)@.remove(id@));
                }
            },
            None => {
                proof {
                    assert(final(self)@ =~= old(self)@.remove(id@));
                }
            },
        }
    }

    /// A snapshot copy of the retained output of this id, for reattaching a
    /// detached view.  An id that is not live yields an empty snapshot, never
    /// an error.
    pub fn read_buffer(&self, id: &str) -> (r: Vec<u8>)
        requires
            self.wf(),
        ensures
            self@.contains_key(id@) ==> r@ == self@[id@],
            !self@.contains_key(id@) ==> r@ == Seq::<u8>::empty(),
    {
        let found = self.find(id);
        match found {
            Some(i) => self.sessions[i].buffer.snapshot(),
            None => Vec::new(),
        }
    }

    /// Appends a chunk the reader pump drained from this session's device to
    /// its retained output, evicting the oldest bytes when the capacity would
    /// be exceeded.  An id that is not live (the pump can outlive a kill)
    /// changes nothing.
    pub fn append_output(&mut self, id: &str, chunk: &[u8])
        requires
            old(self).wf(),
        ensures
            old(self)@.contains_key(id@) ==> final(self)@ == old(self)@.insert(
                id@,
                retained(old(self)@[id@] + chunk@),
            ),
            !old(self)@.contains_key(id@) ==> final(self)@ == old(self)@,
            final(self).wf(),
            final(self).ids() == old(self).ids(),
    {
        let found = self.find(id);
        let ghost old_ss = self.sessions@;
        match found {
            Some(i) => {
                let s = &mut self.sessions[i];
                s.buffer.append(chunk);
                proof {
                    let ss = self.sessions@;
                    assert(seq_ids(ss) =~= seq_ids(old_ss));
                    assert(seq_wf(ss));
                    assert forall|x: Seq<char>| #[trigger] seq_ids(ss).contains(x) && x != id@
                        implies ss[seq_index_of(ss, x)].buffer@ == old_ss[seq_index_of(
                        old_ss,
                        x,
                    )].buffer@ by {
                        lemma_seq_index_of(ss, x);
                        lemma_seq_index_of(old_ss, x);
                        let k = seq_index_of(ss, x);
                        let k0 = seq_index_of(old_ss, x);
                        assert(seq_ids(old_ss)[k] == x);
                        assert(seq_ids(old_ss)[k0] == x);
                        if k != k0 {
                            lemma_ids_unique(old_ss, k, k0);
                        }
                        if k == i {
                            assert(seq_ids(old_ss)[i as int] == id@);
                        }
                    }
                    assert(seq_index_of(ss, id@) == i) by {
                        assert(seq_ids(ss)[i as int] == id@);
                        let k = seq_index_of(ss, id@);
                        if k != i {
                            assert(seq_ids(ss)[k] == id@);
                            lemma_ids_unique(ss, k, i as int);
                        }
                    }
                    assert(final(self)@ =~= old(self)@.insert(
                        id@,
                        retained(old(self)@[id@] + chunk@),
                    ));
                }
            },
            None => {
                proof {
                    assert(final(self)@ =~= old(self)@);
                }
            },
        }
    }

    /// Exclusive access to the write handle of this id, for one brief device
    /// operation; the bookkeeping — which ids are live and what their buffers
    /// retain — is untouched whatever the caller does with the handle.  An id
    /// that is not live yields nothing: the operation becomes a no-op.
    pub fn handle_mut(&mut self, id: &str) -> (r: Option<&mut H>)
        requires
            old(self).wf(),
        ensures
            r is Some <==> old(self)@.contains_key(id@),
            final(self)@ == old(self)@,
            final(self).wf(),
            final(self).ids() == old(self).ids(),
    {
        let found = self.find(id);
        match found {
            Some(i) => {
                proof {
                    let ss = self.sessions@;
                    assert forall|s2: Session<H>|
                        #![trigger ss.update(i as int, s2)]
                        (s2.id@ == ss[i as int].id@ && s2.buffer == ss[i as int].buffer) ==> {
                            seq_view(ss.update(i as int, s2)) == seq_view(ss) && seq_wf(
                                ss.update(i as int, s2),
                            ) && seq_ids(ss.update(i as int, s2)) == seq_ids(ss)
                        } by {
                        if s2.id@ == ss[i as int].id@ && s2.buffer == ss[i as int].buffer {
                            lemma_handle_swap_preserves_model(ss, i as int, s2);
                        }
                    }
                    assert(self.ids().contains(id@));
                    assert(self@.contains_key(id@));
                }
                let s = &mut self.sessions[i];
                Some(&mut s.handle)
            },
            None => {
                proof {
                    assert(final(self)@ =~= old(self)@);
                }
                None
            },
        }
    }
}

} // verus!
