//! The socket registry: the table from handles to session cells, and the
//! allocator that hands the handles out.
//!
//! A cell is whatever the embedding program keeps per handle: as a rule the
//! handle's state behind a lock of its own, shared with the background tasks
//! that work on it. The registry never looks inside.
use std::collections::BTreeMap;
use vstd::prelude::*;
use vstd::std_specs::btree::*;
use crate::errors::SRT_ERRNO;
use crate::settings::SRTSOCKET;
use crate::socket::SocketData;

verus! {

/// The first handle that a registry hands out.
pub const FIRST_SOCKID: SRTSOCKET = 1;

/// A registry as contracts speak of it: the cells by handle, and the handle
/// that is handed out next.
pub struct RegistryView<C> {
    pub cells: Map<SRTSOCKET, C>,
    pub next: int,
}

impl<C> RegistryView<C> {
    /// Every handle in the table was handed out before: it lies between the
    /// first handle and the next one.
    pub open spec fn wf(self) -> bool {
        &&& FIRST_SOCKID <= self.next <= SRTSOCKET::MAX
        &&& forall|h: SRTSOCKET| #[trigger] self.cells.contains_key(h) ==> FIRST_SOCKID <= h < self.next
    }

    /// The empty registry.
    pub open spec fn empty() -> Self {
        RegistryView { cells: Map::empty(), next: FIRST_SOCKID as int }
    }

    /// Whether the handles have run out.
    pub open spec fn exhausted(self) -> bool {
        self.next >= SRTSOCKET::MAX
    }

    /// The handle that an insertion gets: the next one, unless the handles
    /// have run out.
    pub open spec fn fresh_handle(self) -> Option<SRTSOCKET> {
        if self.exhausted() {
            None
        } else {
            Some(self.next as SRTSOCKET)
        }
    }

    /// The registry after `cell` was inserted: it stands under the fresh
    /// handle, and the next handle is one higher. With the handles run out,
    /// nothing changes.
    pub open spec fn insert(self, cell: C) -> Self {
        if self.exhausted() {
            self
        } else {
            RegistryView {
                cells: self.cells.insert(self.next as SRTSOCKET, cell),
                next: self.next + 1,
            }
        }
    }

    /// The registry after `sock` was removed.
    pub open spec fn remove(self, sock: SRTSOCKET) -> Self {
        RegistryView { cells: self.cells.remove(sock), next: self.next }
    }

    /// The registry after every handle was removed. Handles that were handed
    /// out stay used up.
    pub open spec fn clear(self) -> Self {
        RegistryView { cells: Map::empty(), next: self.next }
    }

    /// What looking `sock` up gives: its cell, or "invalid socket".
    pub open spec fn get(self, sock: SRTSOCKET) -> Result<C, SRT_ERRNO> {
        if self.cells.contains_key(sock) {
            Ok(self.cells[sock])
        } else {
            Err(SRT_ERRNO::SRT_EINVSOCK)
        }
    }

    /// Whether `sock` was handed out once and has been removed since.
    pub open spec fn retired(self, sock: SRTSOCKET) -> bool {
        FIRST_SOCKID <= sock < self.next && !self.cells.contains_key(sock)
    }
}

/// The table from handles to cells.
#[derive(Debug)]
pub struct Registry<C> {
    next_sockid: SRTSOCKET,
    sockets: BTreeMap<SRTSOCKET, C>,
}

impl<C> View for Registry<C> {
    type V = RegistryView<C>;

    closed spec fn view(&self) -> RegistryView<C> {
        RegistryView { cells: self.sockets@, next: self.next_sockid as int }
    }
}

impl<C> Registry<C> {
    #[verifier::type_invariant]
    spec fn well_formed(self) -> bool {
        self@.wf()
    }

    /// An empty registry.
    pub fn new() -> (r: Self)
        ensures
            r@ == RegistryView::<C>::empty(),
    {
        Registry { next_sockid: FIRST_SOCKID, sockets: BTreeMap::new() }
    }

    /// What holds of every registry.
    pub fn is_well_formed(&self)
        ensures
            self@.wf(),
    {
        proof {
            use_type_invariant(self);
        }
    }

    /// Takes the table out, leaving an empty one: the table changes outside
    /// the registry, so that the registry is well-formed at every step.
    fn take_table(&mut self) -> (r: BTreeMap<SRTSOCKET, C>)
        ensures
            r@ == old(self)@.cells,
            final(self)@ == old(self)@.clear(),
    {
        proof {
            use_type_invariant(&*self);
        }
        let mut sockets = BTreeMap::new();
        core::mem::swap(&mut self.sockets, &mut sockets);
        sockets
    }

    /// Puts a table in whose handles were all handed out before.
    fn put_table(&mut self, sockets: BTreeMap<SRTSOCKET, C>)
        requires
            (RegistryView { cells: sockets@, next: old(self)@.next }).wf(),
        ensures
            final(self)@ == (RegistryView { cells: sockets@, next: old(self)@.next }),
    {
        let mut sockets = sockets;
        core::mem::swap(&mut self.sockets, &mut sockets);
    }

    /// Allocates the next handle and inserts `data` under it. Gives the
    /// handle; gives nothing, and drops `data`, where the handles have run
    /// out.
    pub fn insert_socket(&mut self, data: C) -> (r: Option<SRTSOCKET>)
        ensures
            r == old(self)@.fresh_handle(),
            final(self)@ == old(self)@.insert(data),
    {
        proof {
            use_type_invariant(&*self);
        }
        broadcast use group_btree_axioms;

        if self.next_sockid >= SRTSOCKET::MAX {
            return None;
        }
        let new_sockid = self.next_sockid;
        let mut sockets = self.take_table();
        self.next_sockid = new_sockid + 1;
        sockets.insert(new_sockid, data);
        self.put_table(sockets);
        Some(new_sockid)
    }

    /// Looks a handle up: gives its cell, or "invalid socket" where the
    /// handle is not in the table.
    pub fn get_sock(&self, sock: SRTSOCKET) -> (r: Result<&C, SRT_ERRNO>)
        ensures
            match self@.get(sock) {
                Ok(cell) => r matches Ok(c) && *c == cell,
                Err(e) => r matches Err(x) && x == e,
            },
    {
        broadcast use group_btree_axioms;

        match self.sockets.get(&sock) {
            Some(cell) => Ok(cell),
            None => Err(SRT_ERRNO::SRT_EINVSOCK),
        }
    }

    /// Removes a handle from the table. Gives the cell that stood under it,
    /// if there was one.
    pub fn remove(&mut self, sock: SRTSOCKET) -> (r: Option<C>)
        ensures
            final(self)@ == old(self)@.remove(sock),
            r == match old(self)@.get(sock) {
                Ok(cell) => Some(cell),
                Err(_) => None,
            },
    {
        proof {
            use_type_invariant(&*self);
        }
        broadcast use group_btree_axioms;

        let mut sockets = self.take_table();
        let removed = sockets.remove(&sock);
        self.put_table(sockets);
        removed
    }

    /// Removes every handle from the table.
    pub fn clear(&mut self)
        ensures
            final(self)@ == old(self)@.clear(),
    {
        proof {
            use_type_invariant(&*self);
        }
        let _ = self.take_table();
    }
}

/// Creates a socket: allocates the next handle and inserts, under it, the
/// cell that `into_cell` makes of a fresh handle's state. Gives the handle,
/// or nothing where the handles have run out.
pub fn srt_create_socket<S, L, R, T, H, C, F>(sockets: &mut Registry<C>, into_cell: F) -> (r: Option<
    SRTSOCKET,
>) where F: FnOnce(SocketData<S, L, R, T, H>) -> C
    requires
        into_cell.requires((SocketData::<S, L, R, T, H>::fresh(),)),
    ensures
        r == old(sockets)@.fresh_handle(),
        exists|cell: C|
            into_cell.ensures((SocketData::<S, L, R, T, H>::fresh(),), cell) && final(sockets)@
                == #[trigger] old(sockets)@.insert(cell),
{
    let cell = into_cell(SocketData::new());
    sockets.insert_socket(cell)
}

/// Forgets every socket. Handles that were handed out stay used up.
pub fn srt_cleanup<C>(sockets: &mut Registry<C>) -> (r: i32)
    ensures
        r == crate::errors::SRT_SUCCESS,
        final(sockets)@ == old(sockets)@.clear(),
{
    sockets.clear();
    crate::errors::SRT_SUCCESS
}

/// The registry after the cells of `cells` were inserted one after the
/// other.
pub open spec fn insert_all<C>(v: RegistryView<C>, cells: Seq<C>) -> RegistryView<C>
    decreases cells.len(),
{
    if cells.len() == 0 {
        v
    } else {
        insert_all(v.insert(cells[0]), cells.skip(1))
    }
}

/// The empty registry is well-formed, and inserting, removing and clearing
/// keep a registry so.
pub proof fn registry_stays_well_formed<C>(v: RegistryView<C>, cell: C, sock: SRTSOCKET)
    requires
        v.wf(),
    ensures
        RegistryView::<C>::empty().wf(),
        v.insert(cell).wf(),
        v.remove(sock).wf(),
        v.clear().wf(),
{
}

/// A handle that is handed out is new: nothing stood under it, it never was
/// retired, and after the insertion it names the cell inserted, while every
/// other handle names what it named before.
pub proof fn fresh_handle_is_new<C>(v: RegistryView<C>, cell: C)
    requires
        v.wf(),
    ensures
        v.fresh_handle() matches Some(h) ==> {
            &&& h != crate::settings::SRT_INVALID_SOCK
            &&& !v.cells.contains_key(h)
            &&& !v.retired(h)
            &&& v.insert(cell).get(h) == Ok::<C, SRT_ERRNO>(cell)
            &&& forall|other: SRTSOCKET| other != h ==> v.insert(cell).get(other) == v.get(other)
        },
{
}

/// As many insertions as the handles suffice for give as many handles, all
/// different: the `i`-th cell stands under the `i`-th handle after the one
/// that was next before.
pub proof fn handles_are_distinct<C>(v: RegistryView<C>, cells: Seq<C>)
    requires
        v.wf(),
        v.next + cells.len() <= SRTSOCKET::MAX,
    ensures
        insert_all(v, cells).wf(),
        insert_all(v, cells).next == v.next + cells.len(),
        forall|i: int|
            0 <= i < cells.len() ==> insert_all(v, cells).get((v.next + i) as SRTSOCKET) == Ok::<
                C,
                SRT_ERRNO,
            >(#[trigger] cells[i]),
        forall|h: SRTSOCKET| v.cells.contains_key(h) ==> insert_all(v, cells).get(h) == v.get(h),
    decreases cells.len(),
{
    if cells.len() > 0 {
        let first = v.insert(cells[0]);
        let rest = cells.skip(1);
        let all = insert_all(v, cells);
        handles_are_distinct(first, rest);
        assert(all == insert_all(first, rest));
        assert(first.cells.contains_key(v.next as SRTSOCKET));
        assert forall|i: int| 0 <= i < cells.len() implies all.get((v.next + i) as SRTSOCKET)
            == Ok::<C, SRT_ERRNO>(#[trigger] cells[i]) by {
            if i > 0 {
                assert(rest[i - 1] == cells[i]);
                assert(first.next + (i - 1) == v.next + i);
                assert(all.get((first.next + (i - 1)) as SRTSOCKET) == Ok::<C, SRT_ERRNO>(
                    rest[i - 1],
                ));
            } else {
                assert(first.get(v.next as SRTSOCKET) == Ok::<C, SRT_ERRNO>(cells[0]));
                assert(all.get(v.next as SRTSOCKET) == first.get(v.next as SRTSOCKET));
            }
        }
        assert forall|h: SRTSOCKET| v.cells.contains_key(h) implies all.get(h) == v.get(h) by {
            assert(first.cells.contains_key(h));
            assert(first.get(h) == v.get(h));
            assert(all.get(h) == first.get(h));
        }
    }
}

/// A handle that was removed is invalid, and stays so whatever is inserted,
/// removed or cleared afterwards: no handle is handed out twice.
pub proof fn retired_handle_stays_invalid<C>(
    v: RegistryView<C>,
    sock: SRTSOCKET,
    cell: C,
    other: SRTSOCKET,
)
    requires
        v.wf(),
    ensures
        v.cells.contains_key(sock) ==> v.remove(sock).retired(sock),
        v.retired(sock) ==> {
            &&& v.get(sock) == Err::<C, SRT_ERRNO>(SRT_ERRNO::SRT_EINVSOCK)
            &&& v.fresh_handle() != Some(sock)
            &&& v.insert(cell).retired(sock)
            &&& v.remove(other).retired(sock)
            &&& v.clear().retired(sock)
        },
{
}

} // verus!
