//! Connection admission and per-connection virtual-device state.
//!
//! [`EisState`] tracks the concurrently active client connections against a
//! fixed ceiling, and for each admitted connection the virtual devices it has
//! bound. Admission beyond the ceiling is rejected; a disconnect releases the
//! slot and every device the connection bound, so nothing of the connection
//! survives it.
//!
//! All request processing runs on one cooperative event loop, so the state is
//! owned by that loop and mutated one request at a time.

use vstd::prelude::*;
use crate::capability::{caps_of_mask, capabilities_from_mask, DeviceCapability};

verus! {

/// One emulated input source bound by a connection after capability
/// negotiation.
#[derive(Debug)]
pub struct VirtualDevice {
    /// The decoded capability set the device was bound with.
    pub capabilities: Vec<DeviceCapability>,
}

/// One admitted client session.
#[derive(Debug)]
pub struct Connection {
    /// Identity of the session, unique among the sessions ever admitted by
    /// one [`EisState`].
    pub id: u64,
    /// The virtual devices the session has bound, in bind order.
    pub devices: Vec<VirtualDevice>,
}

/// Why an admission attempt was rejected.
#[derive(Clone, Copy, PartialEq, Eq, Structural, Debug)]
pub enum AdmitError {
    /// The connection ceiling is reached; the raw socket is simply dropped.
    LimitReached,
}

/// An admission-affecting operation, for stating laws over whole sequences of
/// operations.
#[derive(Clone, Copy, PartialEq, Eq, Structural, Debug)]
pub enum AdmissionOp {
    /// An admission attempt that would assign `id` on success.
    Admit { id: u64 },
    /// A disconnect of the connection named `id`.
    Disconnect { id: u64 },
}

/// The first index in `ids` holding `id`, if any.
pub open spec fn spec_find_id(ids: Seq<u64>, id: u64) -> Option<int>
    decreases ids.len(),
{
    if ids.len() == 0 {
        None
    } else if ids[0] == id {
        Some(0)
    } else {
        match spec_find_id(ids.drop_first(), id) {
            Some(i) => Some(i + 1),
            None => None,
        }
    }
}

/// [`spec_find_id`] returns the least index holding `id`, and `None` exactly
/// when `id` is absent.
pub proof fn lemma_find_id(ids: Seq<u64>, id: u64)
    ensures
        match spec_find_id(ids, id) {
            Some(i) => {
                &&& 0 <= i < ids.len()
                &&& ids[i] == id
                &&& forall|j: int| 0 <= j < i ==> #[trigger] ids[j] != id
            },
            None => forall|j: int| 0 <= j < ids.len() ==> #[trigger] ids[j] != id,
        },
    decreases ids.len(),
{
    if ids.len() == 0 {
    } else if ids[0] == id {
    } else {
        let rest = ids.drop_first();
        lemma_find_id(rest, id);
        assert(forall|j: int| 0 <= j < rest.len() ==> #[trigger] rest[j] == ids[j + 1]);
        match spec_find_id(rest, id) {
            Some(i) => {
                assert(rest[i] == ids[i + 1]);
                assert forall|j: int| 0 <= j < i + 1 implies #[trigger] ids[j] != id by {
                    if j > 0 {
                        assert(rest[j - 1] != id);
                    }
                }
            },
            None => {
                assert forall|j: int| 0 <= j < ids.len() implies #[trigger] ids[j] != id by {
                    if j > 0 {
                        assert(rest[j - 1] != id);
                    }
                }
            },
        }
    }
}

/// The effect of one admission-affecting operation on the sequence of active
/// connection identities, under `ceiling`: an admit appends its identity only
/// below the ceiling; a disconnect removes the identity's first occurrence if
/// present.
pub open spec fn admission_step(ids: Seq<u64>, ceiling: nat, op: AdmissionOp) -> Seq<u64> {
    match op {
        AdmissionOp::Admit { id } => {
            if ids.len() < ceiling {
                ids.push(id)
            } else {
                ids
            }
        },
        AdmissionOp::Disconnect { id } => {
            match spec_find_id(ids, id) {
                Some(i) => ids.remove(i),
                None => ids,
            }
        },
    }
}

/// The active connection identities after a whole sequence of operations.
pub open spec fn admission_run(ids: Seq<u64>, ceiling: nat, ops: Seq<AdmissionOp>) -> Seq<u64>
    decreases ops.len(),
{
    if ops.len() == 0 {
        ids
    } else {
        admission_step(admission_run(ids, ceiling, ops.drop_last()), ceiling, ops.last())
    }
}

/// The active-connection count never exceeds the ceiling: starting at or
/// below the ceiling, every sequence of admit and disconnect operations
/// leaves the count at or below the ceiling.
pub proof fn lemma_admission_run_bounded(ids: Seq<u64>, ceiling: nat, ops: Seq<AdmissionOp>)
    requires
        ids.len() <= ceiling,
    ensures
        admission_run(ids, ceiling, ops).len() <= ceiling,
    decreases ops.len(),
{
    if ops.len() > 0 {
        lemma_admission_run_bounded(ids, ceiling, ops.drop_last());
        let mid = admission_run(ids, ceiling, ops.drop_last());
        match ops.last() {
            AdmissionOp::Admit { id } => {},
            AdmissionOp::Disconnect { id } => {
                lemma_find_id(mid, id);
                match spec_find_id(mid, id) {
                    Some(i) => {
                        mid.remove_ensures(i);
                    },
                    None => {},
                }
            },
        }
    }
}

/// Admission and virtual-device state for the bridge.
#[derive(Debug)]
pub struct EisState {
    /// The connection ceiling this state was configured with.
    pub ceiling: usize,
    /// The identity the next admitted connection will get.
    pub next_id: u64,
    /// The admitted, not yet disconnected connections, in admission order.
    pub connections: Vec<Connection>,
}

impl EisState {
    /// The identities of the active connections, in admission order.
    pub open spec fn ids(self) -> Seq<u64> {
        self.connections@.map_values(|c: Connection| c.id)
    }

    /// Well-formedness: the active count never exceeds the ceiling, every
    /// identity is below the allocation cursor, and identities are distinct.
    pub open spec fn wf(self) -> bool {
        &&& self.connections@.len() <= self.ceiling
        &&& forall|k: int|
            0 <= k < self.connections@.len() ==> (#[trigger] self.connections@[k]).id
                < self.next_id
        &&& forall|i: int, j: int|
            0 <= i < j < self.connections@.len() ==> (#[trigger] self.connections@[i]).id != (
            #[trigger] self.connections@[j]).id
    }

    /// A fresh state with no active connections, admitting up to `ceiling`
    /// concurrent connections.
    pub fn new(ceiling: usize) -> (s: EisState)
        ensures
            s.wf(),
            s.ceiling == ceiling,
            s.connections@.len() == 0,
            s.next_id == 0,
    {
        EisState { ceiling, next_id: 0, connections: Vec::new() }
    }

    /// The number of admitted, not yet disconnected connections.
    pub fn active_connections(&self) -> (n: usize)
        ensures
            n == self.connections@.len(),
    {
        self.connections.len()
    }

    /// Attempt to admit one new connection.
    ///
    /// Succeeds with a fresh identity if and only if the active count is
    /// below the ceiling; at the ceiling the attempt is rejected and the
    /// state is unchanged. Either way the identities afterwards are exactly
    /// one [`admission_step`] from the identities before.
    pub fn try_admit(&mut self) -> (r: Result<u64, AdmitError>)
        requires
            old(self).wf(),
            old(self).next_id < u64::MAX,
        ensures
            final(self).wf(),
            final(self).ceiling == old(self).ceiling,
            final(self).ids() == admission_step(
                old(self).ids(),
                old(self).ceiling as nat,
                AdmissionOp::Admit { id: old(self).next_id },
            ),
            match r {
                Ok(id) => {
                    &&& old(self).connections@.len() < old(self).ceiling
                    &&& id == old(self).next_id
                    &&& final(self).next_id == old(self).next_id + 1
                    &&& final(self).connections@.len() == old(self).connections@.len() + 1
                    &&& forall|k: int|
                        0 <= k < old(self).connections@.len() ==> final(self).connections@[k]
                            == old(self).connections@[k]
                    &&& final(self).connections@.last().id == id
                    &&& final(self).connections@.last().devices@.len() == 0
                },
                Err(e) => {
                    &&& e == AdmitError::LimitReached
                    &&& old(self).connections@.len() >= old(self).ceiling
                    &&& *final(self) == *old(self)
                },
            },
    {
        if self.connections.len() >= self.ceiling {
            proof {
                assert(self.ids() =~= admission_step(
                    self.ids(),
                    self.ceiling as nat,
                    AdmissionOp::Admit { id: self.next_id },
                ));
            }
            return Err(AdmitError::LimitReached);
        }
        let id = self.next_id;
        self.next_id = self.next_id + 1;
        let conn = Connection { id, devices: Vec::new() };
        self.connections.push(conn);
        proof {
            let pre = old(self).connections@;
            let post = self.connections@;
            assert(self.ids() =~= old(self).ids().push(id));
            assert forall|i: int, j: int|
                0 <= i < j < post.len() implies (#[trigger] post[i]).id != (
            #[trigger] post[j]).id by {
                if j == post.len() - 1 {
                    assert(pre[i].id < old(self).next_id);
                }
            }
        }
        Ok(id)
    }

    /// Find the index of the active connection named `id`.
    fn find_connection(&self, id: u64) -> (r: Option<usize>)
        ensures
            match r {
                Some(i) => i < self.connections@.len() && spec_find_id(self.ids(), id) == Some(
                    i as int,
                ),
                None => spec_find_id(self.ids(), id) is None,
            },
    {
        let mut i: usize = 0;
        while i < self.connections.len()
            invariant
                i <= self.connections@.len(),
                forall|j: int| 0 <= j < i ==> #[trigger] self.ids()[j] != id,
            decreases self.connections@.len() - i,
        {
            if self.connections[i].id == id {
                proof {
                    lemma_find_id(self.ids(), id);
                    assert(self.ids()[i as int] == id);
                }
                return Some(i);
            }
            proof {
                assert(self.ids()[i as int] == self.connections@[i as int].id);
            }
            i = i + 1;
        }
        proof {
            lemma_find_id(self.ids(), id);
        }
        None
    }

    /// Tear down the connection named `id`, releasing its admission slot and
    /// every virtual device it bound; unknown identities are ignored.
    ///
    /// The identities afterwards are exactly one [`admission_step`] from the
    /// identities before.
    pub fn disconnect(&mut self, id: u64)
        requires
            old(self).wf(),
        ensures
            final(self).wf(),
            final(self).ceiling == old(self).ceiling,
            final(self).next_id == old(self).next_id,
            final(self).ids() == admission_step(
                old(self).ids(),
                old(self).ceiling as nat,
                AdmissionOp::Disconnect { id },
            ),
            match spec_find_id(old(self).ids(), id) {
                Some(i) => final(self).connections@ == old(self).connections@.remove(i),
                None => *final(self) == *old(self),
            },
    {
        match self.find_connection(id) {
            Some(i) => {
                self.connections.remove(i);
                proof {
                    let pre = old(self).connections@;
                    let post = self.connections@;
                    lemma_find_id(old(self).ids(), id);
                    pre.remove_ensures(i as int);
                    old(self).ids().remove_ensures(i as int);
                    assert(post == pre.remove(i as int));
                    assert(self.ids() =~= old(self).ids().remove(i as int));
                    assert forall|a: int, b: int|
                        0 <= a < b < post.len() implies (#[trigger] post[a]).id != (
                    #[trigger] post[b]).id by {
                        let a0 = if a < i as int {
                            a
                        } else {
                            a + 1
                        };
                        let b0 = if b < i as int {
                            b
                        } else {
                            b + 1
                        };
                        assert(post[a] == pre[a0]);
                        assert(post[b] == pre[b0]);
                    }
                }
            },
            None => {},
        }
    }

    /// Handle a bind request from connection `id`: decode the capability
    /// mask, record a virtual device carrying exactly the decoded set under
    /// that connection, and return the set to announce to the client.
    ///
    /// A bind from an identity that is not active records nothing and
    /// announces nothing.
    pub fn bind_device(&mut self, id: u64, mask: u64) -> (announced: Option<
        Vec<DeviceCapability>,
    >)
        requires
            old(self).wf(),
        ensures
            final(self).wf(),
            final(self).ceiling == old(self).ceiling,
            final(self).next_id == old(self).next_id,
            final(self).ids() == old(self).ids(),
            binds_device(*old(self), *final(self), id, mask),
            match spec_find_id(old(self).ids(), id) {
                Some(_) => announced matches Some(caps) && caps@ == caps_of_mask(mask),
                None => announced is None,
            },
    {
        match self.find_connection(id) {
            Some(i) => {
                let caps = capabilities_from_mask(mask);
                let device_caps = capabilities_from_mask(mask);
                let mut conn = self.connections.remove(i);
                conn.devices.push(VirtualDevice { capabilities: device_caps });
                self.connections.insert(i, conn);
                proof {
                    let pre = old(self).connections@;
                    let post = self.connections@;
                    lemma_find_id(old(self).ids(), id);
                    pre.remove_ensures(i as int);
                    pre.remove(i as int).insert_ensures(i as int, post[i as int]);
                    assert(post == pre.remove(i as int).insert(i as int, post[i as int]));
                    assert forall|k: int| 0 <= k < post.len() && k != i as int implies post[k]
                        == pre[k] by {
                        if k < i as int {
                            assert(post[k] == pre.remove(i as int)[k]);
                        } else {
                            assert(post[k] == pre.remove(i as int)[k - 1]);
                        }
                    }
                    assert(self.ids() =~= old(self).ids());
                }
                Some(caps)
            },
            None => None,
        }
    }
}

/// `post` is `pre` after connection `id` bound one device with capability
/// mask `mask`: if `id` is active, that connection gained exactly one device
/// at the end of its device list, carrying exactly the capabilities decoded
/// from `mask`, and nothing else changed; if `id` is not active, nothing
/// changed at all.
pub open spec fn binds_device(pre: EisState, post: EisState, id: u64, mask: u64) -> bool {
    &&& post.ceiling == pre.ceiling
    &&& post.next_id == pre.next_id
    &&& match spec_find_id(pre.ids(), id) {
        Some(i) => {
            &&& post.connections@.len() == pre.connections@.len()
            &&& forall|k: int|
                0 <= k < post.connections@.len() && k != i ==> #[trigger] post.connections@[k]
                    == pre.connections@[k]
            &&& post.connections@[i].id == pre.connections@[i].id
            &&& post.connections@[i].devices@.len() == pre.connections@[i].devices@.len() + 1
            &&& forall|j: int|
                0 <= j < pre.connections@[i].devices@.len()
                    ==> #[trigger] post.connections@[i].devices@[j]
                    == pre.connections@[i].devices@[j]
            &&& post.connections@[i].devices@.last().capabilities@ == caps_of_mask(mask)
        },
        None => post == pre,
    }
}

/// A bind followed immediately by a disconnect of the same connection leaves
/// no residual virtual-device state: the state afterwards is exactly the
/// state a disconnect alone would have produced.
pub proof fn lemma_bind_then_disconnect_no_residue(
    s: EisState,
    s1: EisState,
    s2: EisState,
    s3: EisState,
    id: u64,
    mask: u64,
)
    requires
        s.wf(),
        binds_device(s, s1, id, mask),
        s1.ids() == s.ids(),
        match spec_find_id(s1.ids(), id) {
            Some(i) => s2.connections@ == s1.connections@.remove(i),
            None => s2.connections@ == s1.connections@,
        },
        match spec_find_id(s.ids(), id) {
            Some(i) => s3.connections@ == s.connections@.remove(i),
            None => s3.connections@ == s.connections@,
        },
    ensures
        s2.connections@ == s3.connections@,
{
    match spec_find_id(s.ids(), id) {
        Some(i) => {
            lemma_find_id(s.ids(), id);
            let a = s1.connections@.remove(i);
            let b = s.connections@.remove(i);
            assert forall|k: int| 0 <= k < a.len() implies a[k] == b[k] by {
                if k < i {
                    assert(s1.connections@[k] == s.connections@[k]);
                } else {
                    assert(s1.connections@[k + 1] == s.connections@[k + 1]);
                }
            }
            assert(a =~= b);
        },
        None => {},
    }
}

} // verus!
