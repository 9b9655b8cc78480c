use vstd::prelude::*;

use crate::surface::SurfaceSession;

verus! {

/// Whether `id` has an entry in `entries`.
pub open spec fn has_id(entries: Seq<(u64, SurfaceSession)>, id: u64) -> bool {
    exists|i: int| 0 <= i < entries.len() && #[trigger] entries[i].0 == id
}

/// No identity has two entries.
pub open spec fn ids_unique(entries: Seq<(u64, SurfaceSession)>) -> bool {
    forall|i: int, j: int|
        0 <= i < entries.len() && 0 <= j < entries.len() && i != j ==> #[trigger] entries[i].0
            != #[trigger] entries[j].0
}

#[derive(Debug, Clone, Copy, PartialEq, Eq, Structural)]
pub enum RegistryError {
    /// The identity already has a session.
    DuplicateWindow,
}

/// The live windows, each identity with its surface session, in order of creation.
pub struct WindowRegistry {
    entries: Vec<(u64, SurfaceSession)>,
}

impl View for WindowRegistry {
    type V = Seq<(u64, SurfaceSession)>;

    closed spec fn view(&self) -> Seq<(u64, SurfaceSession)> {
        self.entries@
    }
}

impl WindowRegistry {
    pub open spec fn wf(&self) -> bool {
        ids_unique(self@)
    }

    pub fn new() -> (r: WindowRegistry)
        ensures
            r@ == Seq::<(u64, SurfaceSession)>::empty(),
            r.wf(),
    {
        WindowRegistry { entries: Vec::new() }
    }

    pub fn len(&self) -> (r: usize)
        ensures
            r == self@.len(),
    {
        self.entries.len()
    }

    pub fn is_empty(&self) -> (r: bool)
        ensures
            r <==> self@.len() == 0,
    {
        self.entries.len() == 0
    }

    /// The position of `id`'s entry, if it has one.
    pub fn position(&self, id: u64) -> (r: Option<usize>)
        ensures
            r is Some ==> r->Some_0 < self@.len() && self@[r->Some_0 as int].0 == id,
            r is None <==> !has_id(self@, id),
    {
        let mut i: usize = 0;
        while i < self.entries.len()
            invariant
                i <= self@.len(),
                forall|k: int| 0 <= k < i ==> #[trigger] self@[k].0 != id,
            decreases self@.len() - i,
        {
            if self.entries[i].0 == id {
                return Some(i);
            }
            i = i + 1;
        }
        None
    }

    pub fn contains(&self, id: u64) -> (r: bool)
        ensures
            r == has_id(self@, id),
    {
        self.position(id).is_some()
    }

    /// Registers `session` under `id`, after every earlier window; an identity that
    /// is already registered is refused and nothing changes.
    pub fn insert(&mut self, id: u64, session: SurfaceSession) -> (r: Result<(), RegistryError>)
        requires
            old(self).wf(),
        ensures
            final(self).wf(),
            has_id(old(self)@, id) ==> r == Err::<(), RegistryError>(
                RegistryError::DuplicateWindow,
            ) && final(self)@ == old(self)@,
            !has_id(old(self)@, id) ==> r is Ok && final(self)@ == old(self)@.push((id, session)),
    {
        if self.contains(id) {
            Err(RegistryError::DuplicateWindow)
        } else {
            self.entries.push((id, session));
            Ok(())
        }
    }

    /// Drops the entry of `id` and hands back its session; `None`, with nothing
    /// changed, when `id` has none, so a second removal is harmless.
    pub fn remove(&mut self, id: u64) -> (r: Option<SurfaceSession>)
        requires
            old(self).wf(),
        ensures
            final(self).wf(),
            !has_id(final(self)@, id),
            !has_id(old(self)@, id) ==> r is None && final(self)@ == old(self)@,
            has_id(old(self)@, id) ==> exists|i: int|
                0 <= i < old(self)@.len() && old(self)@[i].0 == id && r == Some(old(self)@[i].1)
                    && final(self)@ == old(self)@.remove(i),
    {
        match self.position(id) {
            Some(i) => {
                let ghost pre = self@;
                let entry = self.entries.remove(i);
                proof {
                    assert(pre[i as int].0 == id);
                    assert forall|k: int| 0 <= k < self@.len() implies #[trigger] self@[k].0 != id by {
                        if k < i {
                            assert(self@[k] == pre[k]);
                        } else {
                            assert(self@[k] == pre[k + 1]);
                        }
                    }
                }
                Some(entry.1)
            },
            None => None,
        }
    }

    pub fn get(&self, id: u64) -> (r: Option<&SurfaceSession>)
        ensures
            !has_id(self@, id) ==> r is None,
            has_id(self@, id) ==> exists|i: int|
                0 <= i < self@.len() && self@[i].0 == id && r == Some(&self@[i].1),
    {
        match self.position(id) {
            Some(i) => Some(&self.entries[i].1),
            None => None,
        }
    }

    /// The session of `id`, to change in place; every other entry stays as it is.
    pub fn get_mut(&mut self, id: u64) -> (r: Option<&mut SurfaceSession>)
        requires
            old(self).wf(),
        ensures
            !has_id(old(self)@, id) ==> r is None && final(self)@ == old(self)@,
            has_id(old(self)@, id) ==> r is Some && exists|i: int|
                0 <= i < old(self)@.len() && old(self)@[i].0 == id && *r->Some_0 == old(self)@[i].1
                    && final(self)@ == old(self)@.update(i, (id, *final(r->Some_0))),
            final(self).wf(),
    {
        match self.position(id) {
            Some(i) => {
                let entry = &mut self.entries[i];
                Some(&mut entry.1)
            },
            None => None,
        }
    }

    /// The registered identities, in order of creation.
    pub fn ids(&self) -> (r: Vec<u64>)
        ensures
            r@.len() == self@.len(),
            forall|k: int| 0 <= k < r@.len() ==> #[trigger] r@[k] == self@[k].0,
    {
        let mut out: Vec<u64> = Vec::new();
        let mut i: usize = 0;
        while i < self.entries.len()
            invariant
                i <= self@.len(),
                out@.len() == i,
                forall|k: int| 0 <= k < i ==> #[trigger] out@[k] == self@[k].0,
            decreases self@.len() - i,
        {
            out.push(self.entries[i].0);
            i = i + 1;
        }
        out
    }

    /// Drops every session.
    pub fn clear(&mut self)
        ensures
            final(self)@ == Seq::<(u64, SurfaceSession)>::empty(),
            final(self).wf(),
    {
        self.entries.clear();
    }
}

} // verus!
