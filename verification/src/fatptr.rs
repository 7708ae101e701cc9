//! Fat pointers: an erased data pointer paired with the capability table of
//! the concrete type behind it.
//!
//! [`DynRef`] borrows its pointee; [`Dyn`] holds a pointer of any kind, which
//! may own the pointee. Both can be narrowed to a table of fewer capabilities,
//! and cast back to a concrete type, either by comparing the table with the
//! one of that type or by comparing the reports of the two types.

use crate::report::lemma_compatible_reflexive;
use crate::vtable::{equal_end, CanonicalEnd, HasDropVt, IConstConstructor, IStable, NarrowVt};
use vstd::prelude::*;
use vstd::std_specs::cmp::PartialEqSpec;

verus! {

/// An erased value that can be looked at as a value of the concrete type `U`.
///
/// This is the one place where an erased value turns into a typed one again.
/// The fat pointers call it only after the table has been found to match.
pub trait Reinterpret<U> {
    /// Whether the erased value is a `U`.
    spec fn holds(&self) -> bool;

    /// The erased value as a `U`, where it is one.
    spec fn value(&self) -> U;

    /// The erased value as a `U`, or nothing where it is not one.
    fn reinterpret(&self) -> (r: Option<&U>)
        ensures
            r is Some <==> self.holds(),
            r is Some ==> *r->0 == self.value(),
    ;

    /// The erased value as a `U` that can be changed, or nothing where it is
    /// not one. What is written through the result is what the erased value
    /// then holds; where there is no result, the erased value is unchanged.
    fn reinterpret_mut(&mut self) -> (r: Option<&mut U>)
        ensures
            r is Some <==> (*old(self)).holds(),
            match r {
                Some(m) => {
                    &&& *m == (*old(self)).value()
                    &&& (*final(self)).holds()
                    &&& (*final(self)).value() == *final(m)
                },
                None => &*final(self) == &*old(self),
            },
    ;
}

/// A value that is not erased at all can be looked at as what it is.
impl<U> Reinterpret<U> for U {
    open spec fn holds(&self) -> bool {
        true
    }

    open spec fn value(&self) -> U {
        *self
    }

    fn reinterpret(&self) -> (r: Option<&U>) {
        Some(self)
    }

    fn reinterpret_mut(&mut self) -> (r: Option<&mut U>) {
        Some(self)
    }
}

/// A pointer to an erased value.
pub trait IPtr: Sized {
    /// The type that stands for erased values.
    type Erased: ?Sized;

    /// The erased value that the pointer refers to.
    spec fn pointee(&self) -> &Self::Erased;

    /// Borrows the erased value.
    fn as_ref(&self) -> (r: &Self::Erased)
        ensures
            r == self.pointee(),
    ;
}

/// A pointer through which the erased value can be changed.
pub trait IPtrMut: IPtr {
    /// Borrows the erased value for changes. What is written through the
    /// result is what the pointer then refers to.
    fn as_mut(&mut self) -> (r: &mut Self::Erased)
        ensures
            &*r == (*old(self)).pointee(),
            (*final(self)).pointee() == &*final(r),
    ;
}

/// A pointer through which the erased value can be changed where the pointer
/// can tell that nothing else refers to it.
pub trait IPtrTryAsMut: IPtr {
    /// Whether the pointer can tell that nothing else refers to its pointee.
    spec fn exclusive(&self) -> bool;

    /// Borrows the erased value for changes, or yields nothing where the
    /// pointer cannot tell that it is the only one; the pointer is then
    /// unchanged.
    fn try_as_mut(&mut self) -> (r: Option<&mut Self::Erased>)
        ensures
            r is Some <==> (*old(self)).exclusive(),
            match r {
                Some(m) => {
                    &&& &*m == (*old(self)).pointee()
                    &&& (*final(self)).pointee() == &*final(m)
                },
                None => *final(self) == *old(self),
            },
    ;
}

impl<T: IPtrMut> IPtrTryAsMut for T {
    open spec fn exclusive(&self) -> bool {
        true
    }

    fn try_as_mut(&mut self) -> (r: Option<&mut T::Erased>) {
        Some(self.as_mut())
    }
}

/// A pointer that may own its pointee, and knows how to let go of it.
///
/// Whether a pointer owns its pointee is decided by its kind, not by its
/// state: nothing that is done through a pointer makes it gain or lose its
/// pointee.
pub trait IPtrOwned: IPtr {
    /// Whether pointers of this kind own their pointee.
    spec fn owns() -> bool;

    /// Lets go of the pointee. A pointer that owns its pointee has the
    /// destructor at entry `drop` run on it, once, and yields that entry; one
    /// that does not own it does nothing and yields nothing.
    fn drop(this: Self, drop: usize) -> (ran: Option<usize>)
        ensures
            ran == if Self::owns() {
                Some(drop)
            } else {
                None
            },
    ;
}

impl<'a, E: ?Sized> IPtr for &'a E {
    type Erased = E;

    open spec fn pointee(&self) -> &E {
        *self
    }

    fn as_ref(&self) -> (r: &E) {
        *self
    }
}

impl<'a, E: ?Sized> IPtr for &'a mut E {
    type Erased = E;

    open spec fn pointee(&self) -> &E {
        &**self
    }

    fn as_ref(&self) -> (r: &E) {
        &**self
    }
}

impl<'a, E: ?Sized> IPtrMut for &'a mut E {
    fn as_mut(&mut self) -> (r: &mut E) {
        &mut **self
    }
}

impl<'a, E: ?Sized> IPtrOwned for &'a mut E {
    open spec fn owns() -> bool {
        false
    }

    fn drop(_this: Self, _drop: usize) -> (ran: Option<usize>) {
        None
    }
}

/// A typed pointer that can be turned into a pointer to an erased value.
pub trait IntoDyn: Sized {
    /// The pointer once the type of its pointee is erased.
    type Anonymized: IPtr;

    /// The concrete type of the pointee.
    type Target;

    /// The value that the pointer refers to.
    spec fn source(&self) -> Self::Target;

    /// The pointer once the type of its pointee is erased.
    spec fn spec_anonimize(self) -> Self::Anonymized;

    /// Erases the type of the pointee. The erased value is still the value
    /// that the pointer referred to, and can be looked at as such.
    fn anonimize(self) -> (r: Self::Anonymized) where
        <Self::Anonymized as IPtr>::Erased: Reinterpret<Self::Target>,

        ensures
            r == self.spec_anonimize(),
            r.pointee().holds(),
            r.pointee().value() == self.source(),
    ;
}

/// A reference to a value of a known type is its own erased form: what it
/// refers to is looked at as what it is.
impl<'a, T> IntoDyn for &'a T {
    type Anonymized = &'a T;

    type Target = T;

    open spec fn source(&self) -> T {
        **self
    }

    open spec fn spec_anonimize(self) -> &'a T {
        self
    }

    fn anonimize(self) -> (r: &'a T) {
        self
    }
}

/// An erased reference with the capability table of its pointee: the stable
/// counterpart of `&'a dyn Traits`.
pub struct DynRef<'a, E: ?Sized, Vt> {
    pub ptr: &'a E,
    pub vtable: Vt,
    /// Keeps the reference on the thread it was made on, whatever its parts
    /// are.
    pub unsend: core::marker::PhantomData<std::rc::Rc<()>>,
}

impl<'a, E: ?Sized, Vt: Copy> Clone for DynRef<'a, E, Vt> {
    fn clone(&self) -> (r: Self)
        ensures
            r == *self,
    {
        *self
    }
}

impl<'a, E: ?Sized, Vt: Copy> Copy for DynRef<'a, E, Vt> {

}

/// An erased pointer of kind `P` with the capability table of its pointee:
/// the stable counterpart of a `dyn Traits` behind an owning pointer or a
/// `&mut`.
///
/// Where `P` owns its pointee, [`Dyn::destroy`] is how the pointee is
/// destroyed: the object is used up by it, so this happens at most once. An
/// object that merely goes out of scope destroys nothing.
pub struct Dyn<'a, P: IPtrOwned + 'a, Vt: HasDropVt> {
    pub ptr: P,
    pub vtable: Vt,
    /// Keeps the object on the thread it was made on, whatever its parts are.
    pub unsend: core::marker::PhantomData<&'a std::rc::Rc<P>>,
}

/// A fat pointer that can be narrowed to the fat pointer `Super`, which has a
/// table of fewer capabilities.
pub trait IntoSuperTrait<Super>: Sized {
    /// The narrowed fat pointer.
    spec fn spec_into_super(this: Self) -> Super;

    /// Narrows the fat pointer.
    fn into_super(this: Self) -> (r: Super)
        ensures
            r == Self::spec_into_super(this),
    ;
}

impl<'a, E: ?Sized, Vt: NarrowVt<Super>, Super: HasDropVt> IntoSuperTrait<
    DynRef<'a, E, Super>,
> for DynRef<'a, E, Vt> {
    /// The same pointer, with the narrowed table.
    open spec fn spec_into_super(this: Self) -> DynRef<'a, E, Super> {
        DynRef { ptr: this.ptr, vtable: this.vtable.spec_narrow(), unsend: core::marker::PhantomData }
    }

    fn into_super(this: Self) -> (r: DynRef<'a, E, Super>) {
        DynRef { ptr: this.ptr, vtable: this.vtable.narrow(), unsend: core::marker::PhantomData }
    }
}

impl<'a, P: IPtrOwned + 'a, Vt: NarrowVt<Super>, Super: HasDropVt> IntoSuperTrait<
    Dyn<'a, P, Super>,
> for Dyn<'a, P, Vt> {
    /// The same pointer, with the narrowed table. The pointer moves into the
    /// result, which is from then on the one object that can destroy the
    /// pointee.
    open spec fn spec_into_super(this: Self) -> Dyn<'a, P, Super> {
        Dyn { ptr: this.ptr, vtable: this.vtable.spec_narrow(), unsend: core::marker::PhantomData }
    }

    fn into_super(this: Self) -> (r: Dyn<'a, P, Super>) {
        Dyn { ptr: this.ptr, vtable: this.vtable.narrow(), unsend: core::marker::PhantomData }
    }
}

impl<'a, E: ?Sized, Vt: Copy> DynRef<'a, E, Vt> {
    /// The erased pointer.
    pub fn ptr(&self) -> (r: &E)
        ensures
            r == self.ptr,
    {
        self.ptr
    }

    /// The capability table.
    pub fn vtable(&self) -> (r: &Vt)
        ensures
            *r == self.vtable,
    {
        &self.vtable
    }

    /// Narrows `dyn A + B` to `dyn A`.
    ///
    /// One call removes the outermost capability (the rightmost in `dyn`
    /// syntax), or one or both of the thread marks.
    pub fn into_super<Super>(self) -> (r: Super) where Self: IntoSuperTrait<Super>
        ensures
            r == <Self as IntoSuperTrait<Super>>::spec_into_super(self),
    {
        IntoSuperTrait::into_super(self)
    }

    /// What [`DynRef::downcast`] yields: the pointee as a `T`, where the
    /// table equals the table of `T` and the pointee is a `T`.
    pub open spec fn spec_downcast<T>(&self) -> Option<&T> where
        Vt: PartialEq + IConstConstructor<T>,
        E: Reinterpret<T>,
     {
        if self.vtable.eq_spec(&Vt::canonical()) && self.ptr.holds() {
            Some(&self.ptr.value())
        } else {
            None
        }
    }

    /// Casts the reference to the concrete type `T` by comparing its table
    /// with the table of `T`.
    ///
    /// Tables that were built apart, on the two sides of a boundary, may
    /// differ for one and the same type: the cast then yields nothing.
    pub fn downcast<T>(&self) -> (r: Option<&T>) where
        Vt: PartialEq + IConstConstructor<T>,
        E: Reinterpret<T>,

        ensures
            Vt::obeys_eq_spec() ==> r == self.spec_downcast::<T>(),
            r is Some ==> self.ptr.holds() && *r->0 == self.ptr.value(),
    {
        if self.vtable == Vt::vtable() {
            self.ptr.reinterpret()
        } else {
            None
        }
    }

    /// What [`DynRef::stable_downcast`] yields: the pointee as a `T`, where
    /// the report in the table is compatible with the report of `T` and the
    /// pointee is a `T`.
    pub open spec fn spec_stable_downcast<T: IStable>(&self) -> Option<&T> where
        Vt: HasDropVt,
        E: Reinterpret<T>,
     {
        if self.vtable.spec_drop_vt().report.compatible(T::spec_report()) && self.ptr.holds() {
            Some(&self.ptr.value())
        } else {
            None
        }
    }

    /// Casts the reference to the concrete type `T` by comparing the report
    /// in its table with the report of `T`.
    pub fn stable_downcast<T: IStable>(&self) -> (r: Option<&T>) where
        Vt: HasDropVt,
        E: Reinterpret<T>,

        ensures
            r == self.spec_stable_downcast::<T>(),
    {
        if self.vtable.drop_vt().report.is_compatible(T::report()) {
            self.ptr.reinterpret()
        } else {
            None
        }
    }
}

impl<'a, P: IPtrOwned + 'a, Vt: HasDropVt> Dyn<'a, P, Vt> {
    /// The erased pointer.
    pub fn ptr(&self) -> (r: &P)
        ensures
            *r == self.ptr,
    {
        &self.ptr
    }

    /// The erased pointer, for changes.
    pub fn ptr_mut(&mut self) -> (r: &mut P)
        ensures
            *r == old(self).ptr,
            final(self).ptr == *final(r),
            final(self).vtable == old(self).vtable,
            (*final(self)).spec_destroy() == (*old(self)).spec_destroy(),
    {
        &mut self.ptr
    }

    /// The capability table.
    pub fn vtable(&self) -> (r: &Vt)
        ensures
            *r == self.vtable,
    {
        &self.vtable
    }

    /// What [`Dyn::as_ref`] yields: a reference to the pointee, with the same
    /// table.
    pub open spec fn spec_as_ref(&self) -> DynRef<'_, P::Erased, Vt> {
        DynRef { ptr: self.ptr.pointee(), vtable: self.vtable, unsend: core::marker::PhantomData }
    }

    /// Borrows the object as a reference with the same table. The reference
    /// owns nothing.
    pub fn as_ref(&self) -> (r: DynRef<'_, P::Erased, Vt>) where Vt: Copy
        ensures
            r == self.spec_as_ref(),
    {
        DynRef { ptr: self.ptr.as_ref(), vtable: self.vtable, unsend: core::marker::PhantomData }
    }

    /// Borrows the object for changes, as an object of its own with the same
    /// table. The borrow owns nothing: destroying it destroys nothing. What
    /// is written through it is what the object then holds, and the object
    /// is still the one that destroys the pointee, by the same destructor.
    pub fn as_mut(&mut self) -> (r: Dyn<'_, &mut P::Erased, Vt>) where P: IPtrMut, Vt: Copy
        ensures
            &*r.ptr == old(self).ptr.pointee(),
            r.vtable == old(self).vtable,
            r.spec_destroy() is None,
            final(self).ptr.pointee() == &*final(r.ptr),
            final(self).vtable == old(self).vtable,
            (*final(self)).spec_destroy() == (*old(self)).spec_destroy(),
    {
        let vtable = self.vtable;
        Dyn { ptr: self.ptr.as_mut(), vtable, unsend: core::marker::PhantomData }
    }

    /// Borrows the object for changes as [`Dyn::as_mut`] does, where the
    /// pointer can tell that nothing else refers to its pointee; yields
    /// nothing where it cannot, and the object is then unchanged.
    pub fn try_as_mut(&mut self) -> (r: Option<Dyn<'_, &mut P::Erased, Vt>>) where
        P: IPtrTryAsMut,
        Vt: Copy,

        ensures
            r is Some <==> old(self).ptr.exclusive(),
            final(self).vtable == old(self).vtable,
            (*final(self)).spec_destroy() == (*old(self)).spec_destroy(),
            match r {
                Some(d) => {
                    &&& &*d.ptr == old(self).ptr.pointee()
                    &&& d.vtable == old(self).vtable
                    &&& d.spec_destroy() is None
                    &&& final(self).ptr.pointee() == &*final(d.ptr)
                },
                None => *final(self) == *old(self),
            },
    {
        let vtable = self.vtable;
        match self.ptr.try_as_mut() {
            Some(ptr) => Some(Dyn { ptr, vtable, unsend: core::marker::PhantomData }),
            None => None,
        }
    }

    /// Narrows `dyn A + B` to `dyn A`.
    ///
    /// One call removes the outermost capability (the rightmost in `dyn`
    /// syntax), or one or both of the thread marks. The pointee is not
    /// destroyed: the result is the object that holds it from then on.
    pub fn into_super<Super>(self) -> (r: Super) where Self: IntoSuperTrait<Super>
        ensures
            r == <Self as IntoSuperTrait<Super>>::spec_into_super(self),
    {
        IntoSuperTrait::into_super(self)
    }

    /// Casts the object to a reference to the concrete type `T` by comparing
    /// its table with the table of `T`.
    ///
    /// Tables that were built apart, on the two sides of a boundary, may
    /// differ for one and the same type: the cast then yields nothing.
    pub fn downcast_ref<T>(&self) -> (r: Option<&T>) where
        Vt: PartialEq + Copy + IConstConstructor<T>,
        P::Erased: Reinterpret<T>,

        ensures
            Vt::obeys_eq_spec() ==> r == self.spec_as_ref().spec_downcast::<T>(),
            r is Some ==> self.ptr.pointee().holds() && *r->0 == self.ptr.pointee().value(),
    {
        if self.vtable == Vt::vtable() {
            self.ptr.as_ref().reinterpret()
        } else {
            None
        }
    }

    /// Casts the object to a reference to the concrete type `T` by comparing
    /// the report in its table with the report of `T`.
    pub fn stable_downcast_ref<T: IStable>(&self) -> (r: Option<&T>) where
        Vt: Copy + IConstConstructor<T>,
        P::Erased: Reinterpret<T>,

        ensures
            r == self.spec_as_ref().spec_stable_downcast::<T>(),
    {
        if self.vtable.drop_vt().report.is_compatible(T::report()) {
            self.ptr.as_ref().reinterpret()
        } else {
            None
        }
    }

    /// Casts the object to a reference to the concrete type `T` through which
    /// the pointee can be changed, by comparing its table with the table of
    /// `T`. It yields a reference where [`Dyn::downcast_ref`] does. What is
    /// written through the reference is what the object then holds; where
    /// there is no reference, the pointee is unchanged.
    pub fn downcast_mut<T>(&mut self) -> (r: Option<&mut T>) where
        Vt: PartialEq + Copy + IConstConstructor<T>,
        P: IPtrMut,
        P::Erased: Reinterpret<T>,

        ensures
            Vt::obeys_eq_spec() ==> (r is Some <==> old(self).spec_as_ref().spec_downcast::<T>()
                is Some),
            final(self).vtable == old(self).vtable,
            (*final(self)).spec_destroy() == (*old(self)).spec_destroy(),
            match r {
                Some(m) => {
                    &&& old(self).ptr.pointee().holds()
                    &&& *m == old(self).ptr.pointee().value()
                    &&& final(self).ptr.pointee().holds()
                    &&& final(self).ptr.pointee().value() == *final(m)
                },
                None => final(self).ptr.pointee() == old(self).ptr.pointee(),
            },
    {
        if self.vtable == Vt::vtable() {
            self.ptr.as_mut().reinterpret_mut()
        } else {
            None
        }
    }

    /// Casts the object to a reference to the concrete type `T` through which
    /// the pointee can be changed, by comparing the report in its table with
    /// the report of `T`. It yields a reference where
    /// [`Dyn::stable_downcast_ref`] does. What is written through the
    /// reference is what the object then holds; where there is no reference,
    /// the pointee is unchanged.
    pub fn stable_downcast_mut<T: IStable>(&mut self) -> (r: Option<&mut T>) where
        Vt: Copy + IConstConstructor<T>,
        P: IPtrMut,
        P::Erased: Reinterpret<T>,

        ensures
            r is Some <==> old(self).spec_as_ref().spec_stable_downcast::<T>() is Some,
            final(self).vtable == old(self).vtable,
            (*final(self)).spec_destroy() == (*old(self)).spec_destroy(),
            match r {
                Some(m) => {
                    &&& old(self).ptr.pointee().holds()
                    &&& *m == old(self).ptr.pointee().value()
                    &&& final(self).ptr.pointee().holds()
                    &&& final(self).ptr.pointee().value() == *final(m)
                },
                None => final(self).ptr.pointee() == old(self).ptr.pointee(),
            },
    {
        if self.vtable.drop_vt().report.is_compatible(T::report()) {
            self.ptr.as_mut().reinterpret_mut()
        } else {
            None
        }
    }

    /// What [`Dyn::destroy`] yields: the entry of the destructor at the end
    /// of the table, where the pointer owns its pointee.
    pub open spec fn spec_destroy(self) -> Option<usize> {
        if P::owns() {
            Some(self.vtable.spec_drop_vt().drop)
        } else {
            None
        }
    }

    /// Destroys the pointee: the pointer is handed the destructor that stands
    /// at the end of the table, whatever other capabilities the table has.
    /// The object is used up, so a pointee is destroyed at most once. The
    /// result is the entry of the destructor that ran: there is one exactly
    /// where the pointer owned its pointee.
    pub fn destroy(self) -> (ran: Option<usize>)
        ensures
            ran == self.spec_destroy(),
    {
        let drop = self.vtable.drop_vt().drop;
        P::drop(self.ptr, drop)
    }
}

impl<'a, Q: IntoDyn<Anonymized = &'a E>, E: ?Sized + Reinterpret<Q::Target>, Vt: IConstConstructor<Q::Target>> From<Q> for DynRef<'a, E, Vt> {
    /// Erases the type of what `value` refers to, and pairs the reference
    /// with the table of that type.
    fn from(value: Q) -> (r: Self)
        ensures
            r.ptr.holds(),
            r.ptr.value() == value.source(),
    {
        DynRef { ptr: value.anonimize(), vtable: Vt::vtable(), unsend: core::marker::PhantomData }
    }
}

impl<'a, Q: IntoDyn<Anonymized = &'a E>, E: ?Sized + Reinterpret<Q::Target>, Vt: IConstConstructor<Q::Target>> vstd::std_specs::convert::FromSpecImpl<Q> for DynRef<'a, E, Vt> {
    open spec fn obeys_from_spec() -> bool {
        true
    }

    open spec fn from_spec(value: Q) -> Self {
        DynRef { ptr: value.spec_anonimize(), vtable: Vt::canonical(), unsend: core::marker::PhantomData }
    }
}

impl<'a, Q: IntoDyn + 'a, Vt: HasDropVt + IConstConstructor<Q::Target>> From<Q> for Dyn<'a, Q::Anonymized, Vt> where Q::Anonymized: IPtrOwned, <Q::Anonymized as IPtr>::Erased: Reinterpret<Q::Target> {
    /// Erases the type of what `value` refers to, and pairs the pointer with
    /// the table of that type.
    fn from(value: Q) -> (r: Self)
        ensures
            r.ptr.pointee().holds(),
            r.ptr.pointee().value() == value.source(),
    {
        Dyn { ptr: value.anonimize(), vtable: Vt::vtable(), unsend: core::marker::PhantomData }
    }
}

impl<'a, Q: IntoDyn + 'a, Vt: HasDropVt + IConstConstructor<Q::Target>> vstd::std_specs::convert::FromSpecImpl<Q> for Dyn<'a, Q::Anonymized, Vt> where Q::Anonymized: IPtrOwned, <Q::Anonymized as IPtr>::Erased: Reinterpret<Q::Target> {
    open spec fn obeys_from_spec() -> bool {
        true
    }

    open spec fn from_spec(value: Q) -> Self {
        Dyn { ptr: value.spec_anonimize(), vtable: Vt::canonical(), unsend: core::marker::PhantomData }
    }
}

/// Roundtrip: a reference that holds a `T` of value `v` with the table of
/// `T`, as [`DynRef::from`] makes it, casts back to `v`, by the table and by
/// the report alike.
///
/// By the table this takes a table that is equal to itself, which
/// [`crate::vtable::reflexive_eq`] gives: it holds of every table whose
/// capabilities are equal to themselves. A capability whose `==` denies even
/// that makes every cast by the table a miss.
pub proof fn lemma_roundtrip<'a, T: IStable, E: ?Sized + Reinterpret<T>, Vt: PartialEq
    + CanonicalEnd<T>>(r: DynRef<'a, E, Vt>, v: T)
    requires
        r.vtable == <Vt as IConstConstructor<T>>::canonical(),
        r.ptr.holds(),
        r.ptr.value() == v,
        r.vtable.eq_spec(&r.vtable),
    ensures
        r.spec_downcast::<T>() == Some(&v),
        r.spec_stable_downcast::<T>() == Some(&v),
{
    <Vt as CanonicalEnd<T>>::lemma_canonical_end();
    lemma_compatible_reflexive(T::spec_report());
}

/// A miss: a reference with the table of the type `A` does not cast to a type
/// `B` of another report. By the report it yields nothing where the report of
/// `A` is not compatible with that of `B`; by the table it yields nothing
/// where the two reports are not equal, given that tables of this type are
/// equal only where their ends are ([`equal_end`], which holds of every table
/// built of the nodes of this library).
pub proof fn lemma_downcast_miss<'a, A: IStable, B: IStable, E: ?Sized + Reinterpret<
    B,
>, Vt: PartialEq + CanonicalEnd<A> + CanonicalEnd<B>>(r: DynRef<'a, E, Vt>)
    requires
        r.vtable == <Vt as IConstConstructor<A>>::canonical(),
    ensures
        !A::spec_report().compatible(B::spec_report()) ==> r.spec_stable_downcast::<B>() is None,
        equal_end::<Vt>() && !A::spec_report().equal(B::spec_report()) ==> r.spec_downcast::<B>()
            is None,
{
    <Vt as CanonicalEnd<A>>::lemma_canonical_end();
    <Vt as CanonicalEnd<B>>::lemma_canonical_end();
}

/// Roundtrip, for objects: an object that holds a `T` of value `v` with the
/// table of `T`, as [`Dyn::from`] makes it, casts back to `v`, by the table
/// and by the report alike.
pub proof fn lemma_roundtrip_object<'a, T: IStable, P: IPtrOwned + 'a, Vt: PartialEq
    + CanonicalEnd<T>>(d: Dyn<'a, P, Vt>, v: T) where P::Erased: Reinterpret<T>
    requires
        d.vtable == <Vt as IConstConstructor<T>>::canonical(),
        d.ptr.pointee().holds(),
        d.ptr.pointee().value() == v,
        d.vtable.eq_spec(&d.vtable),
    ensures
        d.spec_as_ref().spec_downcast::<T>() == Some(&v),
        d.spec_as_ref().spec_stable_downcast::<T>() == Some(&v),
{
    lemma_roundtrip::<T, P::Erased, Vt>(d.spec_as_ref(), v);
}

/// A miss, for objects: as [`lemma_downcast_miss`], for an object with the
/// table of the type `A`.
pub proof fn lemma_downcast_miss_object<'a, A: IStable, B: IStable, P: IPtrOwned + 'a, Vt: PartialEq
    + CanonicalEnd<A> + CanonicalEnd<B>>(d: Dyn<'a, P, Vt>) where P::Erased: Reinterpret<B>
    requires
        d.vtable == <Vt as IConstConstructor<A>>::canonical(),
    ensures
        !A::spec_report().compatible(B::spec_report()) ==> d.spec_as_ref().spec_stable_downcast::<
            B,
        >() is None,
        equal_end::<Vt>() && !A::spec_report().equal(B::spec_report())
            ==> d.spec_as_ref().spec_downcast::<B>() is None,
{
    lemma_downcast_miss::<A, B, P::Erased, Vt>(d.spec_as_ref());
}

/// Narrowing destroys nothing and keeps what will be destroyed: the narrowed
/// object holds the same pointer, and destroying it runs the destructor that
/// destroying the object itself would have run.
pub proof fn lemma_narrowing_keeps_destructor<'a, P: IPtrOwned + 'a, Vt: NarrowVt<
    Super,
>, Super: HasDropVt>(d: Dyn<'a, P, Vt>)
    ensures
        <Dyn<'a, P, Vt> as IntoSuperTrait<Dyn<'a, P, Super>>>::spec_into_super(d).ptr == d.ptr,
        <Dyn<'a, P, Vt> as IntoSuperTrait<Dyn<'a, P, Super>>>::spec_into_super(d).spec_destroy()
            == d.spec_destroy(),
{
    d.vtable.lemma_narrow_keeps_end();
}

/// A borrow owns nothing: destroying an object that holds a `&mut` runs no
/// destructor.
pub proof fn lemma_borrow_destroys_nothing<'a, 'b, E: ?Sized, Vt: HasDropVt>(
    d: Dyn<'a, &'b mut E, Vt>,
)
    ensures
        d.spec_destroy() is None,
{
}

/// An object that was made for the type `T`, as [`Dyn::from`] makes it, is
/// destroyed by the destructor of `T`, where its pointer owns the pointee.
pub proof fn lemma_destructor_of_source<'a, T: IStable, P: IPtrOwned + 'a, Vt: CanonicalEnd<T>>(
    d: Dyn<'a, P, Vt>,
)
    requires
        d.vtable == <Vt as IConstConstructor<T>>::canonical(),
    ensures
        d.spec_destroy() == if P::owns() {
            Some(T::spec_destructor())
        } else {
            None
        },
{
    <Vt as CanonicalEnd<T>>::lemma_canonical_end();
}

} // verus!
