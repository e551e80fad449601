//! The table of live inodes: kernel inode number to entry, and host identity
//! back to inode number, so that hard links share one inode.

use std::collections::HashMap;
use vstd::prelude::*;

use crate::inode::{INode, Ino, SrcId, ROOT_INO, ROOT_REF_COUNT};

verus! {

/// The table as mathematics: both directions of the mapping and the next
/// inode number to hand out.
#[verifier::ext_equal]
pub struct INodeTableView<H> {
    pub inodes: Map<Ino, INode<H>>,
    pub src_to_ino: Map<SrcId, Ino>,
    pub next_ino: Ino,
}

impl<H> INodeTableView<H> {
    /// The table right after construction: the root alone, pinned.
    pub open spec fn seeded(root_src_id: SrcId, root_handle: H) -> Self {
        INodeTableView {
            inodes: Map::empty().insert(
                ROOT_INO,
                INode {
                    ino: ROOT_INO,
                    src_id: root_src_id,
                    handle: root_handle,
                    is_symlink: false,
                    ref_count: ROOT_REF_COUNT,
                },
            ),
            src_to_ino: Map::empty().insert(root_src_id, ROOT_INO),
            next_ino: 2,
        }
    }

    /// The two directions are inverse to each other, every entry is referenced
    /// and knows its own number, and no live number is zero or still to be
    /// handed out.
    pub open spec fn wf(self) -> bool {
        &&& self.inodes.dom().finite()
        &&& self.src_to_ino.dom().finite()
        &&& self.next_ino >= 2
        &&& forall|ino: Ino| #[trigger]
            self.inodes.contains_key(ino) ==> {
                &&& 0 < ino < self.next_ino
                &&& self.inodes[ino].ino == ino
                &&& self.inodes[ino].ref_count > 0
                &&& self.src_to_ino.contains_key(self.inodes[ino].src_id)
                &&& self.src_to_ino[self.inodes[ino].src_id] == ino
            }
        &&& forall|src_id: SrcId| #[trigger]
            self.src_to_ino.contains_key(src_id) ==> {
                &&& self.inodes.contains_key(self.src_to_ino[src_id])
                &&& self.inodes[self.src_to_ino[src_id]].src_id == src_id
            }
    }

    /// The entry of `ino`, if it is live.
    pub open spec fn get(self, ino: Ino) -> Option<INode<H>> {
        if self.inodes.contains_key(ino) {
            Some(self.inodes[ino])
        } else {
            None
        }
    }

    /// The references held on `ino`: none when it is not live.
    pub open spec fn ref_count(self, ino: Ino) -> u64 {
        if self.inodes.contains_key(ino) {
            self.inodes[ino].ref_count
        } else {
            0
        }
    }

    /// Whether the counters leave room to resolve `src_id`: for a live file
    /// one more reference, for any other one more inode number.
    pub open spec fn can_resolve(self, src_id: SrcId) -> bool {
        if self.src_to_ino.contains_key(src_id) {
            self.inodes[self.src_to_ino[src_id]].ref_count < u64::MAX
        } else {
            self.next_ino < u64::MAX
        }
    }

    /// What resolving `src_id` answers: the number it already has, or the
    /// next free one.
    pub open spec fn resolved_ino(self, src_id: SrcId) -> Ino {
        if self.src_to_ino.contains_key(src_id) {
            self.src_to_ino[src_id]
        } else {
            self.next_ino
        }
    }

    /// The table after resolving `src_id`: one more reference on its entry,
    /// or a new entry holding `handle` under the next number.
    pub open spec fn resolve(self, src_id: SrcId, is_symlink: bool, handle: H) -> Self {
        let ino = self.resolved_ino(src_id);
        if self.src_to_ino.contains_key(src_id) {
            INodeTableView {
                inodes: self.inodes.insert(
                    ino,
                    INode {
                        ref_count: (self.inodes[ino].ref_count + 1) as u64,
                        ..self.inodes[ino]
                    },
                ),
                ..self
            }
        } else {
            INodeTableView {
                inodes: self.inodes.insert(
                    ino,
                    INode { ino, src_id, handle, is_symlink, ref_count: 1 },
                ),
                src_to_ino: self.src_to_ino.insert(src_id, ino),
                next_ino: (ino + 1) as u64,
            }
        }
    }

    /// The table after the kernel forgot `count` references to `ino`: the
    /// entry leaves both directions when none is left.
    pub open spec fn release(self, ino: Ino, count: u64) -> Self {
        if !self.inodes.contains_key(ino) {
            self
        } else if self.inodes[ino].ref_count == count {
            INodeTableView {
                inodes: self.inodes.remove(ino),
                src_to_ino: self.src_to_ino.remove(self.inodes[ino].src_id),
                ..self
            }
        } else {
            INodeTableView {
                inodes: self.inodes.insert(
                    ino,
                    INode {
                        ref_count: (self.inodes[ino].ref_count - count) as u64,
                        ..self.inodes[ino]
                    },
                ),
                ..self
            }
        }
    }
}

impl<H> INodeTableView<H> {
    /// The table after a run of resolutions of one host file, each attempt
    /// bringing its own symlink flag and handle.
    pub open spec fn resolve_each(self, src_id: SrcId, attempts: Seq<(bool, H)>) -> Self
        decreases attempts.len(),
    {
        if attempts.len() == 0 {
            self
        } else {
            self.resolve_each(src_id, attempts.drop_last()).resolve(
                src_id,
                attempts.last().0,
                attempts.last().1,
            )
        }
    }

    /// The table after a run of resolutions, each of a host file of its own.
    pub open spec fn resolve_all(self, requests: Seq<(SrcId, bool, H)>) -> Self
        decreases requests.len(),
    {
        if requests.len() == 0 {
            self
        } else {
            self.resolve_all(requests.drop_last()).resolve(
                requests.last().0,
                requests.last().1,
                requests.last().2,
            )
        }
    }

    /// The references held on the host file `src_id`: none when it is not live.
    pub open spec fn ref_count_of_src(self, src_id: SrcId) -> u64 {
        if self.src_to_ino.contains_key(src_id) {
            self.ref_count(self.src_to_ino[src_id])
        } else {
            0
        }
    }

    /// Resolving keeps the table well formed.
    pub proof fn lemma_resolve_wf(self, src_id: SrcId, is_symlink: bool, handle: H)
        requires
            self.wf(),
            self.can_resolve(src_id),
        ensures
            self.resolve(src_id, is_symlink, handle).wf(),
    {
        let after = self.resolve(src_id, is_symlink, handle);
        let ino = self.resolved_ino(src_id);
        assert forall|other: Ino| #[trigger] after.inodes.contains_key(other) implies {
            &&& 0 < other < after.next_ino
            &&& after.inodes[other].ino == other
            &&& after.inodes[other].ref_count > 0
            &&& after.src_to_ino.contains_key(after.inodes[other].src_id)
            &&& after.src_to_ino[after.inodes[other].src_id] == other
        } by {
            if other != ino {
                assert(self.inodes.contains_key(other));
            }
        }
        assert forall|other: SrcId| #[trigger] after.src_to_ino.contains_key(other) implies {
            &&& after.inodes.contains_key(after.src_to_ino[other])
            &&& after.inodes[after.src_to_ino[other]].src_id == other
        } by {
            if other != src_id {
                assert(self.src_to_ino.contains_key(other));
            }
        }
    }

    /// Giving back no more references than are held keeps the table well
    /// formed.
    pub proof fn lemma_release_wf(self, ino: Ino, count: u64)
        requires
            self.wf(),
            count <= self.ref_count(ino),
        ensures
            self.release(ino, count).wf(),
    {
        let after = self.release(ino, count);
        if self.inodes.contains_key(ino) {
            assert forall|other: Ino| #[trigger] after.inodes.contains_key(other) implies {
                &&& 0 < other < after.next_ino
                &&& after.inodes[other].ino == other
                &&& after.inodes[other].ref_count > 0
                &&& after.src_to_ino.contains_key(after.inodes[other].src_id)
                &&& after.src_to_ino[after.inodes[other].src_id] == other
            } by {
                if other != ino {
                    assert(self.inodes.contains_key(other));
                }
            }
            assert forall|other: SrcId| #[trigger] after.src_to_ino.contains_key(other) implies {
                &&& after.inodes.contains_key(after.src_to_ino[other])
                &&& after.inodes[after.src_to_ino[other]].src_id == other
            } by {
                assert(self.src_to_ino.contains_key(other));
            }
        }
    }

    /// Hard links share one inode: however many names of one host file are
    /// resolved in a row, every resolution answers the same inode number, and
    /// the entry's reference count grows by the number of resolutions. For a
    /// file that was not live before, the count is exactly that number.
    pub proof fn lemma_hard_links_share_inode(self, src_id: SrcId, attempts: Seq<(bool, H)>)
        requires
            self.wf(),
            attempts.len() > 0,
            self.can_resolve(src_id),
            self.ref_count_of_src(src_id) + attempts.len() <= u64::MAX,
        ensures
            self.resolve_each(src_id, attempts).wf(),
            forall|k: int|
                0 <= k < attempts.len() ==> {
                    let before = #[trigger] self.resolve_each(src_id, attempts.take(k));
                    &&& before.can_resolve(src_id)
                    &&& before.resolved_ino(src_id) == self.resolved_ino(src_id)
                },
            self.resolve_each(src_id, attempts).src_to_ino.contains_key(src_id),
            self.resolve_each(src_id, attempts).src_to_ino[src_id] == self.resolved_ino(src_id),
            self.resolve_each(src_id, attempts).ref_count_of_src(src_id) == self.ref_count_of_src(
                src_id,
            ) + attempts.len(),
        decreases attempts.len(),
    {
        let earlier = attempts.drop_last();
        let mid = self.resolve_each(src_id, earlier);
        if earlier.len() > 0 {
            self.lemma_hard_links_share_inode(src_id, earlier);
        }
        mid.lemma_resolve_wf(src_id, attempts.last().0, attempts.last().1);
        assert forall|k: int| 0 <= k < attempts.len() implies {
            let before = #[trigger] self.resolve_each(src_id, attempts.take(k));
            &&& before.can_resolve(src_id)
            &&& before.resolved_ino(src_id) == self.resolved_ino(src_id)
        } by {
            if k < earlier.len() {
                assert(attempts.take(k) =~= earlier.take(k));
            } else {
                assert(attempts.take(k) =~= earlier);
            }
        }
    }

    /// Fresh files get fresh, growing numbers: when host files that are not
    /// live and differ from each other are resolved in a row, and enough
    /// numbers are left, the k-th resolution answers the k-th number after the
    /// counter's start. So the answers grow strictly, none is the root's
    /// number, and none is live at the moment it is handed out.
    pub proof fn lemma_fresh_numbers_increase(self, requests: Seq<(SrcId, bool, H)>)
        requires
            self.wf(),
            forall|i: int|
                0 <= i < requests.len() ==> !self.src_to_ino.contains_key(#[trigger] requests[i].0),
            forall|i: int, j: int|
                0 <= i < j < requests.len() ==> #[trigger] requests[i].0
                    != #[trigger] requests[j].0,
            self.next_ino + requests.len() <= u64::MAX,
        ensures
            self.resolve_all(requests).wf(),
            self.resolve_all(requests).next_ino == self.next_ino + requests.len(),
            forall|src_id: SrcId|
                self.resolve_all(requests).src_to_ino.contains_key(src_id) <==> (
                self.src_to_ino.contains_key(src_id) || exists|i: int|
                    0 <= i < requests.len() && #[trigger] requests[i].0 == src_id),
            forall|k: int|
                0 <= k < requests.len() ==> {
                    let before = #[trigger] self.resolve_all(requests.take(k));
                    &&& before.can_resolve(requests[k].0)
                    &&& before.resolved_ino(requests[k].0) == self.next_ino + k
                    &&& self.next_ino + k != ROOT_INO
                    &&& !before.inodes.contains_key((self.next_ino + k) as u64)
                },
        decreases requests.len(),
    {
        if requests.len() > 0 {
            let earlier = requests.drop_last();
            let last = requests.last();
            let mid = self.resolve_all(earlier);
            self.lemma_fresh_numbers_increase(earlier);
            assert(!mid.src_to_ino.contains_key(last.0)) by {
                if exists|i: int| 0 <= i < earlier.len() && #[trigger] earlier[i].0 == last.0 {
                    let i = choose|i: int|
                        0 <= i < earlier.len() && #[trigger] earlier[i].0 == last.0;
                    assert(requests[i].0 != requests[requests.len() - 1].0);
                }
            }
            mid.lemma_resolve_wf(last.0, last.1, last.2);
            let end = self.resolve_all(requests);
            assert forall|src_id: SrcId|
                end.src_to_ino.contains_key(src_id) <==> (self.src_to_ino.contains_key(src_id)
                    || exists|i: int|
                    0 <= i < requests.len() && #[trigger] requests[i].0 == src_id) by {
                if end.src_to_ino.contains_key(src_id) {
                    if src_id == last.0 {
                        assert(requests[requests.len() - 1].0 == src_id);
                    } else if !self.src_to_ino.contains_key(src_id) {
                        let i = choose|i: int|
                            0 <= i < earlier.len() && #[trigger] earlier[i].0 == src_id;
                        assert(requests[i].0 == src_id);
                    }
                }
                if exists|i: int| 0 <= i < requests.len() && #[trigger] requests[i].0 == src_id {
                    let i = choose|i: int|
                        0 <= i < requests.len() && #[trigger] requests[i].0 == src_id;
                    if i < earlier.len() {
                        assert(earlier[i].0 == src_id);
                    }
                }
            }
            assert forall|k: int| 0 <= k < requests.len() implies {
                let before = #[trigger] self.resolve_all(requests.take(k));
                &&& before.can_resolve(requests[k].0)
                &&& before.resolved_ino(requests[k].0) == self.next_ino + k
                &&& self.next_ino + k != ROOT_INO
                &&& !before.inodes.contains_key((self.next_ino + k) as u64)
            } by {
                if k < earlier.len() {
                    assert(requests.take(k) =~= earlier.take(k));
                } else {
                    assert(requests.take(k) =~= earlier);
                }
            }
        }
    }

    /// Resolutions and releases balance: giving back the one reference that a
    /// resolution took leaves both directions of the table as they were
    /// before it. Only the counter of inode numbers does not go back.
    pub proof fn lemma_release_undoes_resolve(self, src_id: SrcId, is_symlink: bool, handle: H)
        requires
            self.wf(),
            self.can_resolve(src_id),
        ensures
            self.resolve(src_id, is_symlink, handle).release(self.resolved_ino(src_id), 1).inodes
                == self.inodes,
            self.resolve(src_id, is_symlink, handle).release(
                self.resolved_ino(src_id),
                1,
            ).src_to_ino == self.src_to_ino,
            self.resolve(src_id, is_symlink, handle).release(
                self.resolved_ino(src_id),
                1,
            ).next_ino >= self.next_ino,
    {
        let ino = self.resolved_ino(src_id);
        let after = self.resolve(src_id, is_symlink, handle).release(ino, 1);
        if !self.src_to_ino.contains_key(src_id) {
            assert(!self.inodes.contains_key(ino));
        }
        assert(after.inodes =~= self.inodes);
        assert(after.src_to_ino =~= self.src_to_ino);
    }

    /// Inode numbers are not handed out twice: whatever is released, a file
    /// that is resolved afterwards and is not live gets a number above every
    /// number that was live before.
    pub proof fn lemma_numbers_are_not_reused(
        self,
        released: Ino,
        count: u64,
        earlier: Ino,
        src_id: SrcId,
    )
        requires
            self.wf(),
            count <= self.ref_count(released),
            self.inodes.contains_key(earlier),
            !self.release(released, count).src_to_ino.contains_key(src_id),
        ensures
            self.release(released, count).resolved_ino(src_id) > earlier,
    {
    }

    /// An entry whose last reference is given back is gone: looking its number
    /// up finds nothing, and its host file maps to no number.
    pub proof fn lemma_released_entry_is_gone(self, ino: Ino)
        requires
            self.wf(),
            self.inodes.contains_key(ino),
        ensures
            self.release(ino, self.inodes[ino].ref_count).wf(),
            self.release(ino, self.inodes[ino].ref_count).get(ino).is_none(),
            !self.release(ino, self.inodes[ino].ref_count).src_to_ino.contains_key(
                self.inodes[ino].src_id,
            ),
    {
        self.lemma_release_wf(ino, self.inodes[ino].ref_count);
    }
}

/// The key under which a host identity is filed: device and inode number
/// side by side in one integer.
pub open spec fn spec_src_key(src_id: SrcId) -> u128 {
    (src_id.1 * 0x1_0000_0000_0000_0000 + src_id.0) as u128
}

fn src_key(src_id: SrcId) -> (key: u128)
    ensures
        key == spec_src_key(src_id),
{
    let dev: u128 = src_id.1 as u128;
    let ino: u128 = src_id.0 as u128;
    dev * 0x1_0000_0000_0000_0000 + ino
}

proof fn lemma_src_key_injective(a: SrcId, b: SrcId)
    ensures
        spec_src_key(a) == spec_src_key(b) <==> a == b,
{
}

/// Owns every live inode entry and hands out inode numbers.
pub struct INodeTable<H> {
    inodes: HashMap<Ino, INode<H>>,
    src_to_ino: HashMap<u128, Ino>,
    next_ino: u64,
}

impl<H> View for INodeTable<H> {
    type V = INodeTableView<H>;

    closed spec fn view(&self) -> INodeTableView<H> {
        INodeTableView {
            inodes: self.inodes@,
            src_to_ino: Map::new(
                |src_id: SrcId| self.src_to_ino@.contains_key(spec_src_key(src_id)),
                |src_id: SrcId| self.src_to_ino@[spec_src_key(src_id)],
            ),
            next_ino: self.next_ino,
        }
    }
}

impl<H> INodeTable<H> {
    /// The table's invariant: its model is well formed.
    pub open spec fn wf(&self) -> bool {
        self@.wf()
    }

    /// A table that holds the root of the mount under inode number 1, with a
    /// reference count that ordinary traffic does not exhaust.
    pub fn new(root_src_id: SrcId, root_handle: H) -> (table: Self)
        ensures
            table.wf(),
            table@ == INodeTableView::seeded(root_src_id, root_handle),
    {
        let mut inodes: HashMap<Ino, INode<H>> = HashMap::new();
        let mut src_to_ino: HashMap<u128, Ino> = HashMap::new();
        inodes.insert(
            ROOT_INO,
            INode {
                ino: ROOT_INO,
                src_id: root_src_id,
                handle: root_handle,
                is_symlink: false,
                ref_count: ROOT_REF_COUNT,
            },
        );
        src_to_ino.insert(src_key(root_src_id), ROOT_INO);
        let table = INodeTable { inodes, src_to_ino, next_ino: 2 };
        proof {
            assert forall|src_id: SrcId|
                table@.src_to_ino.contains_key(src_id) <==> src_id == root_src_id by {
                lemma_src_key_injective(src_id, root_src_id);
            }
            assert(table@ =~= INodeTableView::seeded(root_src_id, root_handle));
        }
        table
    }

    /// The entry of `ino`, if it is live.
    pub fn get(&self, ino: &Ino) -> (entry: Option<&INode<H>>)
        ensures
            match entry {
                Some(inode) => self@.get(*ino) == Some(*inode),
                None => self@.get(*ino).is_none(),
            },
    {
        self.inodes.get(ino)
    }

    /// The references that the kernel holds on `ino`: none when it is not live.
    pub fn ref_count(&self, ino: Ino) -> (count: u64)
        ensures
            count == self@.ref_count(ino),
    {
        match self.inodes.get(&ino) {
            Some(inode) => inode.ref_count,
            None => 0,
        }
    }

    /// The inode number under which the host file `src_id` is live, if it is.
    pub fn ino_of(&self, src_id: SrcId) -> (ino: Option<Ino>)
        ensures
            match ino {
                Some(found) => self@.src_to_ino.contains_key(src_id) && self@.src_to_ino[src_id]
                    == found,
                None => !self@.src_to_ino.contains_key(src_id),
            },
    {
        match self.src_to_ino.get(&src_key(src_id)) {
            Some(found) => Some(*found),
            None => None,
        }
    }

    /// Whether the counters leave room to resolve `src_id`.
    pub fn can_resolve(&self, src_id: SrcId) -> (room: bool)
        requires
            self.wf(),
        ensures
            room == self@.can_resolve(src_id),
    {
        match self.ino_of(src_id) {
            Some(ino) => self.ref_count(ino) < u64::MAX,
            None => self.next_ino < u64::MAX,
        }
    }

    /// Resolves a host file to its inode number. A file that is already live
    /// keeps its number and gains one reference, so hard links to one file
    /// share an inode. Any other file gets the next number and an entry with
    /// one reference, whose handle `make_handle` supplies.
    ///
    /// The counter in question must not be at its end, which
    /// [`INodeTable::can_resolve`] tells.
    pub fn resolve_or_create<F: FnOnce() -> H>(
        &mut self,
        src_id: SrcId,
        is_symlink: bool,
        make_handle: F,
    ) -> (ino: Ino)
        requires
            old(self).wf(),
            old(self)@.can_resolve(src_id),
            !old(self)@.src_to_ino.contains_key(src_id) ==> make_handle.requires(()),
        ensures
            final(self).wf(),
            ino == old(self)@.resolved_ino(src_id),
            final(self)@.inodes.contains_key(ino),
            final(self)@ == old(self)@.resolve(src_id, is_symlink, final(self)@.inodes[ino].handle),
            !old(self)@.src_to_ino.contains_key(src_id) ==> make_handle.ensures(
                (),
                final(self)@.inodes[ino].handle,
            ),
    {
        let ghost before = self@;
        match self.ino_of(src_id) {
            Some(ino) => {
                let mut inode = self.inodes.remove(&ino).unwrap();
                inode.ref_count = inode.ref_count + 1;
                self.inodes.insert(ino, inode);
                proof {
                    assert(self@ =~= before.resolve(src_id, is_symlink, self@.inodes[ino].handle));
                    before.lemma_resolve_wf(src_id, is_symlink, self@.inodes[ino].handle);
                }
                ino
            },
            None => {
                let ino = self.next_ino;
                let handle = make_handle();
                self.inodes.insert(ino, INode { ino, src_id, handle, is_symlink, ref_count: 1 });
                self.src_to_ino.insert(src_key(src_id), ino);
                self.next_ino = ino + 1;
                proof {
                    assert forall|other: SrcId|
                        self@.src_to_ino.contains_key(other) <==> (other == src_id
                            || before.src_to_ino.contains_key(other)) by {
                        lemma_src_key_injective(other, src_id);
                    }
                    assert(self@.src_to_ino =~= before.src_to_ino.insert(src_id, ino));
                    assert(self@ =~= before.resolve(src_id, is_symlink, self@.inodes[ino].handle));
                    before.lemma_resolve_wf(src_id, is_symlink, self@.inodes[ino].handle);
                }
                ino
            },
        }
    }

    /// Gives back `count` references to `ino`, as the kernel's forget does.
    /// When none is left the entry leaves the table in both directions and its
    /// handle is returned, for the caller to close.
    ///
    /// No more may be given back than are held, which [`INodeTable::ref_count`]
    /// tells: to give back more is a fault of the caller, for which there is
    /// no answer. An inode that is not live holds no reference.
    pub fn release(&mut self, ino: Ino, count: u64) -> (handle: Option<H>)
        requires
            old(self).wf(),
            count <= old(self)@.ref_count(ino),
        ensures
            final(self).wf(),
            final(self)@ == old(self)@.release(ino, count),
            handle == if old(self)@.inodes.contains_key(ino) && old(self)@.inodes[ino].ref_count
                == count {
                Some(old(self)@.inodes[ino].handle)
            } else {
                None
            },
    {
        let ghost before = self@;
        match self.inodes.remove(&ino) {
            None => {
                proof {
                    assert(self@ =~= before);
                }
                None
            },
            Some(mut inode) => {
                if inode.ref_count == count {
                    let key = src_key(inode.src_id);
                    self.src_to_ino.remove(&key);
                    proof {
                        assert forall|other: SrcId|
                            self@.src_to_ino.contains_key(other) <==> (other != inode.src_id
                                && before.src_to_ino.contains_key(other)) by {
                            lemma_src_key_injective(other, inode.src_id);
                        }
                        assert(self@.src_to_ino =~= before.src_to_ino.remove(inode.src_id));
                        assert(self@ =~= before.release(ino, count));
                        before.lemma_release_wf(ino, count);
                    }
                    Some(inode.handle)
                } else {
                    inode.ref_count = inode.ref_count - count;
                    self.inodes.insert(ino, inode);
                    proof {
                        assert(self@ =~= before.release(ino, count));
                        before.lemma_release_wf(ino, count);
                    }
                    None
                }
            },
        }
    }
}

} // verus!
