//! The registry core: exclusive-access cells, per-type stores of canonical
//! instances, and the type-indexed registry built from them.

use vstd::prelude::*;

use crate::builtin::Chunks;
use crate::builtin::Events;
use crate::builtin::Time;

verus! {

/// Why a lookup or an exclusive access failed.
#[derive(Clone, Copy, Debug, PartialEq, Eq)]
pub enum StateError {
    /// No canonical instance of the requested type, or of the addressed
    /// slot, is installed in the registry.
    NotRegistered,
    /// A second exclusive view was requested while one was outstanding on
    /// the same cell, or a view was released on a cell with no outstanding
    /// view.
    ExclusiveAccessViolation,
}

/// A cell holding one state value with runtime-checked exclusive access.
///
/// The view of a cell is `Some(v)` while the value `v` rests in the cell
/// and `None` exactly while an exclusive view on it is outstanding; the
/// value itself is moved out to the holder of the view and moved back when
/// the view is released.
pub struct State<T> {
    value: Option<T>,
}

impl<T> View for State<T> {
    type V = Option<T>;

    closed spec fn view(&self) -> Option<T> {
        self.value
    }
}

impl<T> State<T> {
    /// Wrap `inner` in a fresh cell with no outstanding view.
    pub fn new(inner: T) -> (s: Self)
        ensures
            s@ == Some(inner),
    {
        State { value: Some(inner) }
    }

    /// Begin an exclusive view: move the value out of the cell.
    ///
    /// While the view is outstanding the cell is empty, so a second,
    /// overlapping `get` fails fast with `ExclusiveAccessViolation`
    /// instead of handing out an aliased value.
    pub fn get(&mut self) -> (r: Result<T, StateError>)
        ensures
            old(self)@ is Some ==> r == Ok::<T, StateError>(old(self)@->0) && final(self)@ is None,
            old(self)@ is None ==> r == Err::<T, StateError>(StateError::ExclusiveAccessViolation)
                && *final(self) == *old(self),
    {
        match self.value.take() {
            Some(v) => Ok(v),
            None => Err(StateError::ExclusiveAccessViolation),
        }
    }

    /// Release the exclusive view: move `value` back into the cell.
    ///
    /// Releasing a cell with no outstanding view is a protocol violation
    /// and is rejected without touching the cell.
    pub fn put(&mut self, value: T) -> (r: Result<(), StateError>)
        ensures
            old(self)@ is None ==> r == Ok::<(), StateError>(()) && final(self)@ == Some(value),
            old(self)@ is Some ==> r == Err::<(), StateError>(StateError::ExclusiveAccessViolation)
                && *final(self) == *old(self),
    {
        match self.value {
            Some(_) => Err(StateError::ExclusiveAccessViolation),
            None => {
                self.value = Some(value);
                Ok(())
            }
        }
    }
}

/// A cloneable handle to one canonical instance held by a registry.
///
/// A handle addresses the backing cell of the instance it was obtained
/// for; cloning a handle copies the address and never the instance, so
/// every clone reaches the same cell.
pub struct Handle<T> {
    slot: usize,
    marker: core::marker::PhantomData<T>,
}

impl<T> Handle<T> {
    /// The index of the backing cell this handle addresses.
    pub closed spec fn slot_id(self) -> int {
        self.slot as int
    }
}

impl<T> Clone for Handle<T> {
    /// Cloning yields a handle to the very same backing cell.
    fn clone(&self) -> (r: Self)
        ensures
            r == *self,
    {
        Handle { slot: self.slot, marker: core::marker::PhantomData }
    }
}

/// The mathematical model of a `Store<T>`: the contents of every backing
/// cell ever created for `T`, and which of them is the current canonical
/// instance.
#[verifier::ext_equal]
pub ghost struct StoreModel<T> {
    /// Cell `i` holds `Some(v)` while `v` rests in it, `None` while an
    /// exclusive view on it is outstanding.
    pub slots: Seq<Option<T>>,
    /// The cell of the current canonical instance, if one is registered.
    pub current: Option<int>,
}

impl<T> StoreModel<T> {
    /// A store with no cells and no canonical instance.
    pub open spec fn empty() -> StoreModel<T> {
        StoreModel { slots: Seq::empty(), current: None }
    }

    /// Whether a canonical instance is registered.
    pub open spec fn registered(self) -> bool {
        self.current is Some
    }

    /// Whether `i` addresses a cell of this store.
    pub open spec fn in_bounds(self, i: int) -> bool {
        0 <= i < self.slots.len()
    }

    /// The store after installing `v` as the canonical instance: a fresh
    /// cell is created and the canonical slot is pointed at it, while
    /// every existing cell, and so every handle already handed out, is
    /// left untouched.
    pub open spec fn register(self, v: T) -> StoreModel<T> {
        StoreModel { slots: self.slots.push(Some(v)), current: Some(self.slots.len() as int) }
    }

    /// The store after an attempt to begin an exclusive view on cell `i`:
    /// the value leaves the cell only when the attempt succeeds.
    pub open spec fn take_at(self, i: int) -> StoreModel<T> {
        if self.in_bounds(i) && self.slots[i] is Some {
            StoreModel { slots: self.slots.update(i, None), current: self.current }
        } else {
            self
        }
    }

    /// What an attempt to begin an exclusive view on cell `i` returns.
    pub open spec fn take_result(self, i: int) -> Result<T, StateError> {
        if !self.in_bounds(i) {
            Err(StateError::NotRegistered)
        } else {
            match self.slots[i] {
                Some(v) => Ok(v),
                None => Err(StateError::ExclusiveAccessViolation),
            }
        }
    }

    /// The store after an attempt to release an exclusive view on cell
    /// `i` with value `v`: the cell is filled only when a view was
    /// outstanding on it.
    pub open spec fn put_at(self, i: int, v: T) -> StoreModel<T> {
        if self.in_bounds(i) && self.slots[i] is None {
            StoreModel { slots: self.slots.update(i, Some(v)), current: self.current }
        } else {
            self
        }
    }

    /// What an attempt to release an exclusive view on cell `i` returns.
    pub open spec fn put_result(self, i: int, v: T) -> Result<(), StateError> {
        if !self.in_bounds(i) {
            Err(StateError::NotRegistered)
        } else {
            match self.slots[i] {
                Some(_) => Err(StateError::ExclusiveAccessViolation),
                None => Ok(()),
            }
        }
    }
}

/// All backing cells ever created for one state type, and which of them
/// holds the current canonical instance.
///
/// Registration never destroys a cell: a later registration of the same
/// type creates a fresh cell and repoints the canonical slot, so handles
/// obtained earlier keep addressing the instance they were obtained for.
pub struct Store<T> {
    cells: Vec<State<T>>,
    current: Option<usize>,
}

impl<T> View for Store<T> {
    type V = StoreModel<T>;

    closed spec fn view(&self) -> StoreModel<T> {
        StoreModel {
            slots: Seq::new(self.cells@.len(), |i: int| self.cells@[i]@),
            current: match self.current {
                Some(i) => Some(i as int),
                None => None,
            },
        }
    }
}

impl<T> Store<T> {
    /// A store with no cells and no canonical instance.
    pub fn empty() -> (st: Self)
        ensures
            st@ == StoreModel::<T>::empty(),
    {
        let st = Store { cells: Vec::new(), current: None };
        proof {
            assert(st@ =~= StoreModel::<T>::empty());
        }
        st
    }

    /// Install `value` as the canonical instance: wrap it in a fresh cell
    /// and point the canonical slot at that cell.
    pub fn register(&mut self, value: T)
        ensures
            final(self)@ == old(self)@.register(value),
    {
        let slot = self.cells.len();
        self.cells.push(State::new(value));
        self.current = Some(slot);
        proof {
            assert(self@ =~= old(self)@.register(value));
        }
    }

    /// A handle to the current canonical instance, if one is registered.
    pub fn lookup(&self) -> (r: Option<Handle<T>>)
        ensures
            r is Some <==> self@.registered(),
            r is Some ==> self@.current == Some((r->0).slot_id()),
    {
        match self.current {
            Some(slot) => Some(Handle { slot, marker: core::marker::PhantomData }),
            None => None,
        }
    }

    /// Begin an exclusive view on the cell `handle` addresses, moving
    /// its value out to the caller.
    pub fn take(&mut self, handle: &Handle<T>) -> (r: Result<T, StateError>)
        ensures
            final(self)@ == old(self)@.take_at(handle.slot_id()),
            r == old(self)@.take_result(handle.slot_id()),
    {
        let slot = handle.slot;
        if slot < self.cells.len() {
            let cell = &mut self.cells[slot];
            let r = cell.get();
            proof {
                assert(self@ =~= old(self)@.take_at(slot as int));
            }
            r
        } else {
            Err(StateError::NotRegistered)
        }
    }

    /// Release an exclusive view on the cell `handle` addresses, moving
    /// `value` back into it.
    pub fn put(&mut self, handle: &Handle<T>, value: T) -> (r: Result<(), StateError>)
        ensures
            final(self)@ == old(self)@.put_at(handle.slot_id(), value),
            r == old(self)@.put_result(handle.slot_id(), value),
    {
        let slot = handle.slot;
        if slot < self.cells.len() {
            let cell = &mut self.cells[slot];
            let r = cell.put(value);
            proof {
                assert(self@ =~= old(self)@.put_at(slot as int, value));
            }
            r
        } else {
            Err(StateError::NotRegistered)
        }
    }
}

/// The registration wrapper for application-defined state.
///
/// The built-in state types are storable as they are; one further,
/// application-chosen type `C` is storable per registry, wrapped in
/// `Custom` so that its store is told apart from the built-in ones.
pub struct Custom<C>(pub C);

/// The capability a type needs to be storable in a [`States<C>`]
/// registry: it names the store that holds its canonical instances and
/// routes each registry operation to that store.
///
/// Every contract is stated here once, over `store_model`, and holds of
/// each storable type alike.
pub trait Stored<C>: Sized {
    /// The model of the store holding canonical instances of `Self` in `s`.
    spec fn store_model(s: States<C>) -> StoreModel<Self>;

    /// Whether the stores of all state types other than `Self` agree
    /// between `s0` and `s1`.
    spec fn others_unchanged(s0: States<C>, s1: States<C>) -> bool;

    /// Install `self` as the canonical instance of `Self` in `s`.
    fn register_route(self, s: &mut States<C>)
        ensures
            Self::store_model(*final(s)) == Self::store_model(*old(s)).register(self),
            Self::others_unchanged(*old(s), *final(s)),
    ;

    /// A handle to the current canonical instance of `Self` in `s`.
    fn lookup_route(s: &States<C>) -> (r: Option<Handle<Self>>)
        ensures
            r is Some <==> Self::store_model(*s).registered(),
            r matches Some(h) ==> Self::store_model(*s).current == Some(h.slot_id()),
    ;

    /// Begin an exclusive view on the cell of the store of `Self` that
    /// `handle` addresses.
    fn take_route(s: &mut States<C>, handle: &Handle<Self>) -> (r: Result<Self, StateError>)
        ensures
            Self::store_model(*final(s)) == Self::store_model(*old(s)).take_at(handle.slot_id()),
            r == Self::store_model(*old(s)).take_result(handle.slot_id()),
            Self::others_unchanged(*old(s), *final(s)),
    ;

    /// Release an exclusive view on the cell of the store of `Self` that
    /// `handle` addresses.
    fn put_route(s: &mut States<C>, handle: &Handle<Self>, value: Self) -> (r: Result<(), StateError>)
        ensures
            Self::store_model(*final(s)) == Self::store_model(*old(s)).put_at(handle.slot_id(), value),
            r == Self::store_model(*old(s)).put_result(handle.slot_id(), value),
            Self::others_unchanged(*old(s), *final(s)),
    ;
}

/// The type-indexed registry: one store of canonical instances per
/// storable state type.
///
/// `C` is the application's own state type; a registry carries the three
/// mandatory built-in stores and one store for `Custom<C>`.
pub struct States<C> {
    time: Store<Time>,
    events: Store<Events>,
    chunks: Store<Chunks>,
    custom: Store<Custom<C>>,
}

impl<C> Stored<C> for Time {
    closed spec fn store_model(s: States<C>) -> StoreModel<Time> {
        s.time@
    }

    closed spec fn others_unchanged(s0: States<C>, s1: States<C>) -> bool {
        s1.events == s0.events && s1.chunks == s0.chunks && s1.custom == s0.custom
    }

    fn register_route(self, s: &mut States<C>) {
        s.time.register(self);
    }

    fn lookup_route(s: &States<C>) -> (r: Option<Handle<Time>>) {
        s.time.lookup()
    }

    fn take_route(s: &mut States<C>, handle: &Handle<Time>) -> (r: Result<Time, StateError>) {
        s.time.take(handle)
    }

    fn put_route(s: &mut States<C>, handle: &Handle<Time>, value: Time) -> (r: Result<(), StateError>) {
        s.time.put(handle, value)
    }
}

impl<C> Stored<C> for Events {
    closed spec fn store_model(s: States<C>) -> StoreModel<Events> {
        s.events@
    }

    closed spec fn others_unchanged(s0: States<C>, s1: States<C>) -> bool {
        s1.time == s0.time && s1.chunks == s0.chunks && s1.custom == s0.custom
    }

    fn register_route(self, s: &mut States<C>) {
        s.events.register(self);
    }

    fn lookup_route(s: &States<C>) -> (r: Option<Handle<Events>>) {
        s.events.lookup()
    }

    fn take_route(s: &mut States<C>, handle: &Handle<Events>) -> (r: Result<Events, StateError>) {
        s.events.take(handle)
    }

    fn put_route(s: &mut States<C>, handle: &Handle<Events>, value: Events) -> (r: Result<(), StateError>) {
        s.events.put(handle, value)
    }
}

impl<C> Stored<C> for Chunks {
    closed spec fn store_model(s: States<C>) -> StoreModel<Chunks> {
        s.chunks@
    }

    closed spec fn others_unchanged(s0: States<C>, s1: States<C>) -> bool {
        s1.time == s0.time && s1.events == s0.events && s1.custom == s0.custom
    }

    fn register_route(self, s: &mut States<C>) {
        s.chunks.register(self);
    }

    fn lookup_route(s: &States<C>) -> (r: Option<Handle<Chunks>>) {
        s.chunks.lookup()
    }

    fn take_route(s: &mut States<C>, handle: &Handle<Chunks>) -> (r: Result<Chunks, StateError>) {
        s.chunks.take(handle)
    }

    fn put_route(s: &mut States<C>, handle: &Handle<Chunks>, value: Chunks) -> (r: Result<(), StateError>) {
        s.chunks.put(handle, value)
    }
}

impl<C> Stored<C> for Custom<C> {
    closed spec fn store_model(s: States<C>) -> StoreModel<Custom<C>> {
        s.custom@
    }

    closed spec fn others_unchanged(s0: States<C>, s1: States<C>) -> bool {
        s1.time == s0.time && s1.events == s0.events && s1.chunks == s0.chunks
    }

    fn register_route(self, s: &mut States<C>) {
        s.custom.register(self);
    }

    fn lookup_route(s: &States<C>) -> (r: Option<Handle<Custom<C>>>) {
        s.custom.lookup()
    }

    fn take_route(s: &mut States<C>, handle: &Handle<Custom<C>>) -> (r: Result<Custom<C>, StateError>) {
        s.custom.take(handle)
    }

    fn put_route(s: &mut States<C>, handle: &Handle<Custom<C>>, value: Custom<C>) -> (r: Result<(), StateError>) {
        s.custom.put(handle, value)
    }
}

impl<C> States<C> {
    /// How many state types currently have a canonical instance.
    pub closed spec fn entry_count(self) -> int {
        (if self.time@.registered() { 1int } else { 0int })
            + (if self.events@.registered() { 1int } else { 0int })
            + (if self.chunks@.registered() { 1int } else { 0int })
            + (if self.custom@.registered() { 1int } else { 0int })
    }

    /// A registry with no canonical instance of any type.
    pub fn empty() -> (s: Self)
        ensures
            <Time as Stored<C>>::store_model(s) == StoreModel::<Time>::empty(),
            <Events as Stored<C>>::store_model(s) == StoreModel::<Events>::empty(),
            <Chunks as Stored<C>>::store_model(s) == StoreModel::<Chunks>::empty(),
            <Custom<C> as Stored<C>>::store_model(s) == StoreModel::<Custom<C>>::empty(),
            s.entry_count() == 0,
    {
        States {
            time: Store::empty(),
            events: Store::empty(),
            chunks: Store::empty(),
            custom: Store::empty(),
        }
    }

    /// Install `state` as the canonical instance of its type.
    ///
    /// A fresh backing cell is created and the canonical slot of the
    /// type's store is pointed at it; a prior instance is not destroyed,
    /// so handles obtained before a re-registration keep addressing the
    /// instance they were obtained for and are deliberately not
    /// retargeted.  No other type's store is touched.
    pub fn register<S: Stored<C>>(&mut self, state: S)
        ensures
            S::store_model(*final(self)) == S::store_model(*old(self)).register(state),
            S::others_unchanged(*old(self), *final(self)),
    {
        state.register_route(self);
    }

    /// A handle to the current canonical instance of `S`, if one is
    /// registered; absence is an ordinary outcome here.
    pub fn get_option<S: Stored<C>>(&self) -> (r: Option<Handle<S>>)
        ensures
            r is Some <==> S::store_model(*self).registered(),
            r matches Some(h) ==> S::store_model(*self).current == Some(h.slot_id()),
    {
        S::lookup_route(self)
    }

    /// A handle to the current canonical instance of `S`, or
    /// `StateError::NotRegistered` when no instance of `S` is installed.
    pub fn get<S: Stored<C>>(&self) -> (r: Result<Handle<S>, StateError>)
        ensures
            r is Ok <==> S::store_model(*self).registered(),
            r matches Ok(h) ==> S::store_model(*self).current == Some(h.slot_id()),
            r is Err ==> r == Err::<Handle<S>, StateError>(StateError::NotRegistered),
    {
        match S::lookup_route(self) {
            Some(handle) => Ok(handle),
            None => Err(StateError::NotRegistered),
        }
    }

    /// Begin an exclusive view on the instance `handle` addresses: move
    /// the value out to the caller.
    ///
    /// While the view is outstanding, a further `take` through any handle
    /// to the same instance fails fast with `ExclusiveAccessViolation`; a
    /// handle that addresses no cell of this registry is refused with
    /// `NotRegistered`.
    pub fn take<S: Stored<C>>(&mut self, handle: &Handle<S>) -> (r: Result<S, StateError>)
        ensures
            S::store_model(*final(self)) == S::store_model(*old(self)).take_at(handle.slot_id()),
            r == S::store_model(*old(self)).take_result(handle.slot_id()),
            S::others_unchanged(*old(self), *final(self)),
    {
        S::take_route(self, handle)
    }

    /// Release the exclusive view on the instance `handle` addresses:
    /// move `value` back into its backing cell, where every holder of a
    /// handle to that instance observes it.
    pub fn put<S: Stored<C>>(&mut self, handle: &Handle<S>, value: S) -> (r: Result<(), StateError>)
        ensures
            S::store_model(*final(self)) == S::store_model(*old(self)).put_at(handle.slot_id(), value),
            r == S::store_model(*old(self)).put_result(handle.slot_id(), value),
            S::others_unchanged(*old(self), *final(self)),
    {
        S::put_route(self, handle, value)
    }
}

impl<C> Default for States<C> {
    /// The standard bootstrap: a registry already carrying one
    /// default-constructed canonical instance each of `Time`, `Events`
    /// and `Chunks` — exactly three entries — and no custom instance yet.
    fn default() -> (s: Self)
        ensures
            <Time as Stored<C>>::store_model(s).registered(),
            <Time as Stored<C>>::store_model(s).current == Some(0int),
            <Time as Stored<C>>::store_model(s).slots.len() == 1,
            <Time as Stored<C>>::store_model(s).slots[0] is Some,
            ((<Time as Stored<C>>::store_model(s).slots[0])->0)@ == 0,
            <Events as Stored<C>>::store_model(s).registered(),
            <Events as Stored<C>>::store_model(s).current == Some(0int),
            <Events as Stored<C>>::store_model(s).slots.len() == 1,
            <Events as Stored<C>>::store_model(s).slots[0] is Some,
            ((<Events as Stored<C>>::store_model(s).slots[0])->0)@ == Seq::<u64>::empty(),
            <Chunks as Stored<C>>::store_model(s).registered(),
            <Chunks as Stored<C>>::store_model(s).current == Some(0int),
            <Chunks as Stored<C>>::store_model(s).slots.len() == 1,
            <Chunks as Stored<C>>::store_model(s).slots[0] is Some,
            ((<Chunks as Stored<C>>::store_model(s).slots[0])->0)@ == Seq::<u64>::empty(),
            !<Custom<C> as Stored<C>>::store_model(s).registered(),
            <Custom<C> as Stored<C>>::store_model(s) == StoreModel::<Custom<C>>::empty(),
            s.entry_count() == 3,
    {
        let mut s = States::<C>::empty();
        s.register(Time::default());
        s.register(Events::default());
        s.register(Chunks::default());
        s
    }
}

/// The capability that lets a state type be fetched from the registry by
/// a uniform call, `S::from_state(&states)`, in place of a hand-written
/// `states.get::<S>()` at every use site.
///
/// The blanket implementation below supplies it for every storable type,
/// so no per-type boilerplate is needed.
pub trait FromState<C>: Stored<C> {
    /// Fetch the handle for `Self` from `states`, exactly as
    /// `States::get` does.
    fn from_state(states: &States<C>) -> (r: Result<Handle<Self>, StateError>)
        ensures
            r is Ok <==> Self::store_model(*states).registered(),
            r matches Ok(h) ==> Self::store_model(*states).current == Some(h.slot_id()),
            r is Err ==> r == Err::<Handle<Self>, StateError>(StateError::NotRegistered),
    ;
}

impl<C, S: Stored<C>> FromState<C> for S {
    fn from_state(states: &States<C>) -> (r: Result<Handle<S>, StateError>) {
        states.get::<S>()
    }
}

/// Law: registering a type installs exactly the given value as its
/// canonical instance.  A store that has seen a registration reports one,
/// its canonical cell holds the registered value, and a take through the
/// canonical cell returns it; a store that has never seen one reports
/// none, and every take on it is refused.
pub proof fn lemma_register_then_found<T>(m: StoreModel<T>, v: T, i: int)
    ensures
        m.register(v).registered(),
        m.register(v).slots[m.register(v).current->0] == Some(v),
        m.register(v).take_result(m.register(v).current->0) == Ok::<T, StateError>(v),
        !StoreModel::<T>::empty().registered(),
        StoreModel::<T>::empty().take_result(i) == Err::<T, StateError>(StateError::NotRegistered),
{
}

/// Law: cloning a handle never duplicates the underlying instance.  A
/// clone is equal to the handle it came from, so it addresses the same
/// backing cell:
/// once a mutated value is released through one handle, a take through
/// any equal handle — obtained before or after the mutation — returns
/// exactly the released value.
pub proof fn lemma_clone_shares_instance<T>(m: StoreModel<T>, h1: Handle<T>, h2: Handle<T>, v: T)
    requires
        h2 == h1,
        m.put_result(h1.slot_id(), v) is Ok,
    ensures
        m.put_at(h1.slot_id(), v).take_result(h2.slot_id()) == Ok::<T, StateError>(v),
{
}

/// Law: registering a type twice, with `v1` then `v2`, leaves `v2` as the
/// current canonical instance, in a cell distinct from the first; the
/// first cell still holds `v1`, so handles obtained before the second
/// registration keep observing `v1` — the deliberate sharp edge of
/// re-registration, not a migration.
pub proof fn lemma_reregister_keeps_old_instance<T>(m: StoreModel<T>, v1: T, v2: T)
    ensures
        ({
            let m1 = m.register(v1);
            let m2 = m1.register(v2);
            &&& m2.registered()
            &&& m2.current != m1.current
            &&& m2.slots[m1.current->0] == Some(v1)
            &&& m2.slots[m2.current->0] == Some(v2)
        }),
{
}

/// Law: exclusive views never overlap, but may follow one another.
/// While a view begun on a cell is outstanding, a second take on the same
/// cell is rejected with `ExclusiveAccessViolation`; once the view is
/// released, the next take on that cell succeeds and returns the released
/// value.
pub proof fn lemma_exclusive_view_discipline<T>(m: StoreModel<T>, i: int, v: T)
    requires
        m.take_result(i) is Ok,
    ensures
        m.take_at(i).take_result(i) == Err::<T, StateError>(StateError::ExclusiveAccessViolation),
        m.take_at(i).put_at(i, v).take_result(i) == Ok::<T, StateError>(v),
{
}

} // verus!
