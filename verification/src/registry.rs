//! Connection Registry: a mapping from container ID to an established
//! connection, with the invariant that at most one connection is registered
//! per container ID at any time. The registry exclusively owns its entries;
//! dialing the transport happens outside, and its outcome is handed in.

use vstd::prelude::*;

use crate::CmdError;

verus! {

/// A handle to an established channel to one container's shim instance.
/// The serial number distinguishes handles: each establishment gets a fresh
/// one, so two handles with equal serials refer to the same underlying
/// connection.
#[derive(Debug)]
pub struct Connection {
    pub container_id: String,
    pub address: String,
    pub serial: u64,
}

impl Clone for Connection {
    fn clone(&self) -> (r: Self)
        ensures
            r == *self,
    {
        Connection {
            container_id: self.container_id.clone(),
            address: self.address.clone(),
            serial: self.serial,
        }
    }
}

/// Container IDs are pairwise distinct across the entries.
spec fn unique_ids(s: Seq<Connection>) -> bool {
    forall|i: int, j: int|
        0 <= i < s.len() && 0 <= j < s.len() && s[i].container_id@ == s[j].container_id@ ==> i == j
}

/// Some entry carries this container ID.
spec fn seq_contains_id(s: Seq<Connection>, id: Seq<char>) -> bool {
    exists|i: int| 0 <= i < s.len() && #[trigger] s[i].container_id@ == id
}

/// This very handle is among the entries, under this container ID.
spec fn seq_registered(s: Seq<Connection>, id: Seq<char>, c: Connection) -> bool {
    &&& c.container_id@ == id
    &&& exists|i: int| 0 <= i < s.len() && #[trigger] s[i] == c
}

proof fn lemma_remove_frame(pre: Seq<Connection>, i: int, id: Seq<char>)
    requires
        0 <= i < pre.len(),
        pre[i].container_id@ == id,
    ensures
        forall|other: Seq<char>|
            other != id ==> seq_contains_id(pre.remove(i), other) == seq_contains_id(pre, other),
        forall|other: Seq<char>, c: Connection|
            other != id ==> seq_registered(pre.remove(i), other, c) == seq_registered(pre, other, c),
{
    let post = pre.remove(i);
    assert forall|other: Seq<char>| other != id implies seq_contains_id(post, other)
        == seq_contains_id(pre, other) by {
        if seq_contains_id(pre, other) {
            let j = choose|j: int| 0 <= j < pre.len() && #[trigger] pre[j].container_id@ == other;
            if j < i {
                assert(post[j].container_id@ == other);
            } else {
                assert(post[j - 1].container_id@ == other);
            }
        }
        if seq_contains_id(post, other) {
            let k = choose|k: int| 0 <= k < post.len() && #[trigger] post[k].container_id@ == other;
            if k < i {
                assert(pre[k].container_id@ == other);
            } else {
                assert(pre[k + 1].container_id@ == other);
            }
        }
    }
    assert forall|other: Seq<char>, c: Connection| other != id implies seq_registered(
        post,
        other,
        c,
    ) == seq_registered(pre, other, c) by {
        if seq_registered(pre, other, c) {
            let j = choose|j: int| 0 <= j < pre.len() && #[trigger] pre[j] == c;
            assert(j != i);
            if j < i {
                assert(post[j] == c);
            } else {
                assert(post[j - 1] == c);
            }
        }
        if seq_registered(post, other, c) {
            let k = choose|k: int| 0 <= k < post.len() && #[trigger] post[k] == c;
            if k < i {
                assert(pre[k] == c);
            } else {
                assert(pre[k + 1] == c);
            }
        }
    }
}

proof fn lemma_remove_all_gone(pre: Seq<Connection>, i: int, id: Seq<char>)
    requires
        unique_ids(pre),
        0 <= i < pre.len(),
        pre[i].container_id@ == id,
    ensures
        !seq_contains_id(pre.remove(i), id),
        unique_ids(pre.remove(i)),
{
    let post = pre.remove(i);
    if seq_contains_id(post, id) {
        let k = choose|k: int| 0 <= k < post.len() && #[trigger] post[k].container_id@ == id;
        if k < i {
            assert(pre[k].container_id@ == id);
        } else {
            assert(pre[k + 1].container_id@ == id);
        }
    }
    assert forall|a: int, b: int|
        0 <= a < post.len() && 0 <= b < post.len() && post[a].container_id@
            == post[b].container_id@ implies a == b by {
        let a0 = if a < i { a } else { a + 1 };
        let b0 = if b < i { b } else { b + 1 };
        assert(pre[a0] == post[a]);
        assert(pre[b0] == post[b]);
    }
}

proof fn lemma_push_frame(pre: Seq<Connection>, c0: Connection)
    ensures
        forall|other: Seq<char>|
            other != c0.container_id@ ==> seq_contains_id(pre.push(c0), other) == seq_contains_id(
                pre,
                other,
            ),
        forall|other: Seq<char>, c: Connection|
            other != c0.container_id@ ==> seq_registered(pre.push(c0), other, c) == seq_registered(
                pre,
                other,
                c,
            ),
        seq_contains_id(pre.push(c0), c0.container_id@),
        seq_registered(pre.push(c0), c0.container_id@, c0),
{
    let post = pre.push(c0);
    assert(post[pre.len() as int] == c0);
    assert forall|other: Seq<char>| other != c0.container_id@ implies seq_contains_id(post, other)
        == seq_contains_id(pre, other) by {
        if seq_contains_id(pre, other) {
            let j = choose|j: int| 0 <= j < pre.len() && #[trigger] pre[j].container_id@ == other;
            assert(post[j].container_id@ == other);
        }
        if seq_contains_id(post, other) {
            let k = choose|k: int| 0 <= k < post.len() && #[trigger] post[k].container_id@ == other;
            assert(k < pre.len());
            assert(pre[k].container_id@ == other);
        }
    }
    assert forall|other: Seq<char>, c: Connection| other != c0.container_id@ implies seq_registered(
        post,
        other,
        c,
    ) == seq_registered(pre, other, c) by {
        if seq_registered(pre, other, c) {
            let j = choose|j: int| 0 <= j < pre.len() && #[trigger] pre[j] == c;
            assert(post[j] == c);
        }
        if seq_registered(post, other, c) {
            let k = choose|k: int| 0 <= k < post.len() && #[trigger] post[k] == c;
            assert(k < pre.len());
            assert(pre[k] == c);
        }
    }
}

/// The registry: container ID -> connection, at most one entry per ID.
pub struct ConnectionRegistry {
    entries: Vec<Connection>,
    next_serial: u64,
}

impl ConnectionRegistry {
    /// Well-formedness: container IDs are unique across entries, and every
    /// issued serial is below the next one to be issued.
    pub closed spec fn wf(self) -> bool {
        &&& unique_ids(self.entries@)
        &&& forall|i: int|
            0 <= i < self.entries.len() ==> #[trigger] self.entries[i].serial < self.next_serial
    }

    /// Some connection is registered under this container ID.
    pub closed spec fn spec_contains(self, id: Seq<char>) -> bool {
        seq_contains_id(self.entries@, id)
    }

    /// This very handle is registered under this container ID.
    pub closed spec fn registered(self, id: Seq<char>, c: Connection) -> bool {
        seq_registered(self.entries@, id, c)
    }

    /// How many connections the registry holds.
    pub closed spec fn spec_len(self) -> nat {
        self.entries.len() as nat
    }

    /// The serial the next established connection will carry.
    pub closed spec fn spec_next_serial(self) -> u64 {
        self.next_serial
    }

    /// A fresh, empty registry: no container has a connection.
    pub fn new() -> (r: ConnectionRegistry)
        ensures
            r.wf(),
            r.spec_len() == 0,
            forall|id: Seq<char>| !r.spec_contains(id),
    {
        ConnectionRegistry { entries: Vec::new(), next_serial: 0 }
    }

    /// Find the index of the entry registered under `id`, if any.
    fn find(&self, id: &String) -> (r: Option<usize>)
        ensures
            match r {
                Some(i) => i < self.entries.len() && self.entries[i as int].container_id@ == id@,
                None => !self.spec_contains(id@),
            },
    {
        let mut i: usize = 0;
        while i < self.entries.len()
            invariant
                i <= self.entries.len(),
                forall|j: int| 0 <= j < i ==> self.entries[j].container_id@ != id@,
            decreases self.entries.len() - i,
        {
            if self.entries[i].container_id.eq(id) {
                return Some(i);
            }
            i = i + 1;
        }
        None
    }

    /// Decide well-formedness at run time, for callers outside verified code
    /// that must establish it before calling in.
    pub fn wf_check(&self) -> (r: bool)
        ensures
            r == self.wf(),
    {
        let n = self.entries.len();
        let mut i: usize = 0;
        while i < n
            invariant
                n == self.entries.len(),
                i <= n,
                forall|a: int, b: int|
                    0 <= a < i && 0 <= b < self.entries.len() && a != b
                        ==> self.entries[a].container_id@ != self.entries[b].container_id@,
                forall|a: int| 0 <= a < i ==> #[trigger] self.entries[a].serial < self.next_serial,
            decreases n - i,
        {
            if self.entries[i].serial >= self.next_serial {
                return false;
            }
            let mut j: usize = 0;
            while j < n
                invariant
                    n == self.entries.len(),
                    i < n,
                    j <= n,
                    forall|b: int|
                        0 <= b < j && b != i ==> self.entries[i as int].container_id@
                            != self.entries[b].container_id@,
                decreases n - j,
            {
                if j != i && self.entries[i].container_id.eq(&self.entries[j].container_id) {
                    return false;
                }
                j = j + 1;
            }
            i = i + 1;
        }
        true
    }

    /// Whether another connection can still be established: the serial space
    /// is not exhausted.
    pub fn can_register(&self) -> (r: bool)
        ensures
            r == (self.spec_next_serial() < u64::MAX),
    {
        self.next_serial < u64::MAX
    }

    /// Look up the connection registered under `id`; never creates one.
    /// Fails with `NotFound` exactly when no entry exists.
    pub fn get(&self, id: &String) -> (r: Result<Connection, CmdError>)
        requires
            self.wf(),
        ensures
            match r {
                Ok(c) => self.spec_contains(id@) && self.registered(id@, c),
                Err(e) => e == CmdError::NotFound && !self.spec_contains(id@),
            },
    {
        match self.find(id) {
            Some(i) => Ok(self.entries[i].clone()),
            None => Err(CmdError::NotFound),
        }
    }

    /// Register a connection for `id` at `address`. The dial of the transport
    /// happens outside this layer; `dial_ok` reports its outcome. On a failed
    /// dial the registry is untouched and `ConnectFailed` is returned. On a
    /// successful dial any previous entry for `id` is replaced by a freshly
    /// established connection (the replace policy: every call re-dials), so
    /// at most one connection per container ID ever exists.
    pub fn get_or_create(&mut self, id: &String, address: &String, dial_ok: bool) -> (r: Result<
        Connection,
        CmdError,
    >)
        requires
            old(self).wf(),
            old(self).spec_next_serial() < u64::MAX,
        ensures
            final(self).wf(),
            match r {
                Ok(c) => {
                    &&& dial_ok
                    &&& final(self).spec_contains(id@)
                    &&& final(self).registered(id@, c)
                    &&& c.container_id@ == id@
                    &&& c.address@ == address@
                    &&& c.serial == old(self).spec_next_serial()
                },
                Err(e) => {
                    &&& e == CmdError::ConnectFailed
                    &&& !dial_ok
                    &&& *final(self) == *old(self)
                },
            },
            forall|other: Seq<char>|
                other != id@ ==> final(self).spec_contains(other) == old(self).spec_contains(
                    other,
                ),
            forall|other: Seq<char>, c: Connection|
                other != id@ ==> final(self).registered(other, c) == old(self).registered(
                    other,
                    c,
                ),
    {
        if !dial_ok {
            return Err(CmdError::ConnectFailed);
        }
        let ghost pre = self.entries@;
        let ghost mid: Seq<Connection>;
        match self.find(id) {
            Some(i) => {
                proof {
                    lemma_remove_frame(pre, i as int, id@);
                    lemma_remove_all_gone(pre, i as int, id@);
                }
                self.entries.remove(i);
                proof {
                    mid = self.entries@;
                }
            },
            None => {
                proof {
                    mid = self.entries@;
                }
            },
        }
        let fresh = Connection {
            container_id: id.clone(),
            address: address.clone(),
            serial: self.next_serial,
        };
        let handle = fresh.clone();
        proof {
            lemma_push_frame(mid, fresh);
        }
        self.entries.push(fresh);
        self.next_serial = self.next_serial + 1;
        proof {
            let post = self.entries@;
            assert(post == mid.push(fresh));
            assert(!seq_contains_id(mid, id@));
            assert forall|a: int, b: int|
                0 <= a < post.len() && 0 <= b < post.len() && post[a].container_id@
                    == post[b].container_id@ implies a == b by {
                if a < mid.len() && b == mid.len() {
                    assert(mid[a].container_id@ == id@);
                }
                if b < mid.len() && a == mid.len() {
                    assert(mid[b].container_id@ == id@);
                }
            }
        }
        Ok(handle)
    }

    /// Erase and release the entry for `id` if one is present; a no-op, not
    /// an error, if none is.
    pub fn remove(&mut self, id: &String)
        requires
            old(self).wf(),
        ensures
            final(self).wf(),
            !final(self).spec_contains(id@),
            !old(self).spec_contains(id@) ==> *final(self) == *old(self),
            forall|other: Seq<char>|
                other != id@ ==> final(self).spec_contains(other) == old(self).spec_contains(
                    other,
                ),
            forall|other: Seq<char>, c: Connection|
                other != id@ ==> final(self).registered(other, c) == old(self).registered(
                    other,
                    c,
                ),
    {
        let ghost pre = self.entries@;
        match self.find(id) {
            Some(i) => {
                proof {
                    lemma_remove_frame(pre, i as int, id@);
                    lemma_remove_all_gone(pre, i as int, id@);
                }
                self.entries.remove(i);
            },
            None => {},
        }
    }
}

/// At most one connection per container: a lookup immediately after a
/// registration yields a handle to the very connection that was registered.
/// Any two handles registered under one container ID in a well-formed
/// registry are the same handle, so `get` after `get_or_create` cannot
/// return a silently duplicated connection.
pub proof fn lemma_get_or_create_then_get(
    reg: ConnectionRegistry,
    id: Seq<char>,
    created: Connection,
    looked_up: Connection,
)
    requires
        reg.wf(),
        reg.registered(id, created),
        reg.registered(id, looked_up),
    ensures
        looked_up == created,
{
    let s = reg.entries@;
    let i = choose|i: int| 0 <= i < s.len() && #[trigger] s[i] == created;
    let j = choose|j: int| 0 <= j < s.len() && #[trigger] s[j] == looked_up;
    assert(s[i].container_id@ == s[j].container_id@);
}

} // verus!
