//! Capability tables: what can be done with an erased value.
//!
//! A table is a list built by type. It ends in [`VtDrop`], which every table
//! has; each [`VTable`] node adds one capability in front of a tail; and
//! [`VtSend`] and [`VtSync`] mark a table as one for values that may be moved
//! to, or shared with, another thread. Tables are small plain values, copied
//! freely; a fat pointer holds its table by value.

use crate::report::{lemma_equal_reflexive, TypeReport};
use vstd::prelude::*;
use vstd::std_specs::cmp::PartialEqSpec;

verus! {

/// What the library has to know of a concrete type to erase it: the report
/// that describes the type, and the entry of its destructor.
pub trait IStable {
    /// The report of the type.
    spec fn spec_report() -> &'static TypeReport;

    /// The entry of the type's destructor.
    spec fn spec_destructor() -> usize;

    /// The report of the type, the same at every call.
    fn report() -> (r: &'static TypeReport)
        ensures
            r == Self::spec_report(),
    ;

    /// The entry of the type's destructor, the same at every call.
    fn destructor() -> (r: usize)
        ensures
            r == Self::spec_destructor(),
    ;
}

/// The end of every table: the entry of the destructor of the table's
/// concrete type, and the report of that type.
#[derive(Debug, Eq, Clone, Copy, Hash)]
pub struct VtDrop {
    pub drop: usize,
    pub report: &'static TypeReport,
}

/// A table that provides the capability `Head` besides those of `Tail`.
#[derive(Debug, Eq, Clone, Copy, Hash)]
pub struct VTable<Head, Tail = VtDrop> {
    pub tail: Tail,
    pub head: Head,
}

/// A table for values that may be moved to another thread.
#[derive(Debug, Eq, Clone, Copy, Hash)]
pub struct VtSend<Vt>(pub Vt);

/// A table for values that may be shared with another thread.
#[derive(Debug, Eq, Clone, Copy, Hash)]
pub struct VtSync<Vt>(pub Vt);

impl PartialEq for VtDrop {
    fn eq(&self, other: &VtDrop) -> (r: bool) {
        self.drop == other.drop && *self.report == *other.report
    }
}

impl vstd::std_specs::cmp::PartialEqSpecImpl for VtDrop {
    open spec fn obeys_eq_spec() -> bool {
        true
    }

    open spec fn eq_spec(&self, other: &VtDrop) -> bool {
        self.drop == other.drop && self.report.equal(other.report)
    }
}

impl<Head: PartialEq, Tail: PartialEq> PartialEq for VTable<Head, Tail> {
    fn eq(&self, other: &VTable<Head, Tail>) -> (r: bool) {
        self.head == other.head && self.tail == other.tail
    }
}

impl<Head: PartialEq, Tail: PartialEq> vstd::std_specs::cmp::PartialEqSpecImpl for VTable<Head, Tail> {
    open spec fn obeys_eq_spec() -> bool {
        Head::obeys_eq_spec() && Tail::obeys_eq_spec()
    }

    open spec fn eq_spec(&self, other: &VTable<Head, Tail>) -> bool {
        self.head.eq_spec(&other.head) && self.tail.eq_spec(&other.tail)
    }
}

impl<Vt: PartialEq> PartialEq for VtSend<Vt> {
    fn eq(&self, other: &VtSend<Vt>) -> (r: bool) {
        self.0 == other.0
    }
}

impl<Vt: PartialEq> vstd::std_specs::cmp::PartialEqSpecImpl for VtSend<Vt> {
    open spec fn obeys_eq_spec() -> bool {
        Vt::obeys_eq_spec()
    }

    open spec fn eq_spec(&self, other: &VtSend<Vt>) -> bool {
        self.0.eq_spec(&other.0)
    }
}

impl<Vt: PartialEq> PartialEq for VtSync<Vt> {
    fn eq(&self, other: &VtSync<Vt>) -> (r: bool) {
        self.0 == other.0
    }
}

impl<Vt: PartialEq> vstd::std_specs::cmp::PartialEqSpecImpl for VtSync<Vt> {
    open spec fn obeys_eq_spec() -> bool {
        Vt::obeys_eq_spec()
    }

    open spec fn eq_spec(&self, other: &VtSync<Vt>) -> bool {
        self.0.eq_spec(&other.0)
    }
}

/// A table that ends in a [`VtDrop`].
pub trait HasDropVt {
    /// The end of the table.
    spec fn spec_drop_vt(&self) -> VtDrop;

    /// The end of the table: the destructor and the report of its concrete
    /// type.
    fn drop_vt(&self) -> (r: &VtDrop)
        ensures
            *r == self.spec_drop_vt(),
    ;
}

impl HasDropVt for VtDrop {
    open spec fn spec_drop_vt(&self) -> VtDrop {
        *self
    }

    fn drop_vt(&self) -> (r: &VtDrop) {
        self
    }
}

impl<Head, Tail: HasDropVt> HasDropVt for VTable<Head, Tail> {
    open spec fn spec_drop_vt(&self) -> VtDrop {
        self.tail.spec_drop_vt()
    }

    fn drop_vt(&self) -> (r: &VtDrop) {
        self.tail.drop_vt()
    }
}

impl<Vt: HasDropVt> HasDropVt for VtSend<Vt> {
    open spec fn spec_drop_vt(&self) -> VtDrop {
        self.0.spec_drop_vt()
    }

    fn drop_vt(&self) -> (r: &VtDrop) {
        self.0.drop_vt()
    }
}

impl<Vt: HasDropVt> HasDropVt for VtSync<Vt> {
    open spec fn spec_drop_vt(&self) -> VtDrop {
        self.0.spec_drop_vt()
    }

    fn drop_vt(&self) -> (r: &VtDrop) {
        self.0.drop_vt()
    }
}

/// A table that carries the mark of values that may be moved to another
/// thread.
pub trait HasSendVt {
}

impl<Vt> HasSendVt for VtSend<Vt> {
}

impl<Vt: HasSendVt> HasSendVt for VtSync<Vt> {
}

impl<Head, Tail: HasSendVt> HasSendVt for VTable<Head, Tail> {
}

/// A table that carries the mark of values that may be shared with another
/// thread.
pub trait HasSyncVt {
}

impl<Vt> HasSyncVt for VtSync<Vt> {
}

impl<Vt: HasSyncVt> HasSyncVt for VtSend<Vt> {
}

impl<Head, Tail: HasSyncVt> HasSyncVt for VTable<Head, Tail> {
}

/// A table that has one canonical value for the concrete type `Source`.
pub trait IConstConstructor<Source>: Copy {
    /// The table of `Source`.
    spec fn canonical() -> Self;

    /// The table of `Source`, the same at every call.
    fn vtable() -> (r: Self)
        ensures
            r == Self::canonical(),
    ;
}

impl<Source: IStable> IConstConstructor<Source> for VtDrop {
    open spec fn canonical() -> VtDrop {
        VtDrop { drop: Source::spec_destructor(), report: Source::spec_report() }
    }

    fn vtable() -> (r: VtDrop) {
        VtDrop { drop: Source::destructor(), report: Source::report() }
    }
}

impl<Source, Head: IConstConstructor<Source>, Tail: IConstConstructor<Source>> IConstConstructor<
    Source,
> for VTable<Head, Tail> {
    open spec fn canonical() -> VTable<Head, Tail> {
        VTable { tail: Tail::canonical(), head: Head::canonical() }
    }

    fn vtable() -> (r: VTable<Head, Tail>) {
        VTable { tail: Tail::vtable(), head: Head::vtable() }
    }
}

impl<Source: Send, Vt: IConstConstructor<Source>> IConstConstructor<Source> for VtSend<Vt> {
    open spec fn canonical() -> VtSend<Vt> {
        VtSend(Vt::canonical())
    }

    fn vtable() -> (r: VtSend<Vt>) {
        VtSend(Vt::vtable())
    }
}

impl<Source: Sync, Vt: IConstConstructor<Source>> IConstConstructor<Source> for VtSync<Vt> {
    open spec fn canonical() -> VtSync<Vt> {
        VtSync(Vt::canonical())
    }

    fn vtable() -> (r: VtSync<Vt>) {
        VtSync(Vt::vtable())
    }
}

/// A table that can be narrowed to the table `Super` of fewer capabilities.
///
/// One step of narrowing removes the outermost capability, one thread mark, or
/// both thread marks at once; the thread marks of a table may be kept while
/// the capability below them is removed. Narrowing never changes the end of
/// the table.
pub trait NarrowVt<Super: HasDropVt>: HasDropVt + Sized {
    /// The narrowed table.
    spec fn spec_narrow(self) -> Super;

    /// Narrows the table.
    fn narrow(self) -> (r: Super)
        ensures
            r == self.spec_narrow(),
    ;

    /// Narrowing keeps the end of the table: the destructor and the report.
    proof fn lemma_narrow_keeps_end(self)
        ensures
            self.spec_narrow().spec_drop_vt() == self.spec_drop_vt(),
    ;
}

impl<Head, Tail: HasDropVt> NarrowVt<Tail> for VTable<Head, Tail> {
    open spec fn spec_narrow(self) -> Tail {
        self.tail
    }

    fn narrow(self) -> (r: Tail) {
        self.tail
    }

    proof fn lemma_narrow_keeps_end(self) {
    }
}

impl<Vt: HasDropVt> NarrowVt<Vt> for VtSend<Vt> {
    open spec fn spec_narrow(self) -> Vt {
        self.0
    }

    fn narrow(self) -> (r: Vt) {
        self.0
    }

    proof fn lemma_narrow_keeps_end(self) {
    }
}

impl<Vt: HasDropVt> NarrowVt<Vt> for VtSync<Vt> {
    open spec fn spec_narrow(self) -> Vt {
        self.0
    }

    fn narrow(self) -> (r: Vt) {
        self.0
    }

    proof fn lemma_narrow_keeps_end(self) {
    }
}

impl<Vt: HasDropVt> NarrowVt<Vt> for VtSync<VtSend<Vt>> {
    open spec fn spec_narrow(self) -> Vt {
        self.0.0
    }

    fn narrow(self) -> (r: Vt) {
        self.0.0
    }

    proof fn lemma_narrow_keeps_end(self) {
    }
}

impl<Vt: HasDropVt> NarrowVt<Vt> for VtSend<VtSync<Vt>> {
    open spec fn spec_narrow(self) -> Vt {
        self.0.0
    }

    fn narrow(self) -> (r: Vt) {
        self.0.0
    }

    proof fn lemma_narrow_keeps_end(self) {
    }
}

impl<Vt: HasDropVt> NarrowVt<VtSync<Vt>> for VtSync<VtSend<Vt>> {
    open spec fn spec_narrow(self) -> VtSync<Vt> {
        VtSync(self.0.0)
    }

    fn narrow(self) -> (r: VtSync<Vt>) {
        VtSync(self.0.0)
    }

    proof fn lemma_narrow_keeps_end(self) {
    }
}

impl<Vt: HasDropVt> NarrowVt<VtSend<Vt>> for VtSend<VtSync<Vt>> {
    open spec fn spec_narrow(self) -> VtSend<Vt> {
        VtSend(self.0.0)
    }

    fn narrow(self) -> (r: VtSend<Vt>) {
        VtSend(self.0.0)
    }

    proof fn lemma_narrow_keeps_end(self) {
    }
}

impl<Head, Tail: HasDropVt> NarrowVt<Tail> for VtSend<VTable<Head, Tail>> {
    open spec fn spec_narrow(self) -> Tail {
        self.0.tail
    }

    fn narrow(self) -> (r: Tail) {
        self.0.tail
    }

    proof fn lemma_narrow_keeps_end(self) {
    }
}

impl<Head, Tail: HasDropVt> NarrowVt<Tail> for VtSync<VTable<Head, Tail>> {
    open spec fn spec_narrow(self) -> Tail {
        self.0.tail
    }

    fn narrow(self) -> (r: Tail) {
        self.0.tail
    }

    proof fn lemma_narrow_keeps_end(self) {
    }
}

impl<Head, Tail: HasDropVt> NarrowVt<Tail> for VtSync<VtSend<VTable<Head, Tail>>> {
    open spec fn spec_narrow(self) -> Tail {
        self.0.0.tail
    }

    fn narrow(self) -> (r: Tail) {
        self.0.0.tail
    }

    proof fn lemma_narrow_keeps_end(self) {
    }
}

impl<Head, Tail: HasDropVt> NarrowVt<Tail> for VtSend<VtSync<VTable<Head, Tail>>> {
    open spec fn spec_narrow(self) -> Tail {
        self.0.0.tail
    }

    fn narrow(self) -> (r: Tail) {
        self.0.0.tail
    }

    proof fn lemma_narrow_keeps_end(self) {
    }
}

impl<Head, Tail: HasDropVt> NarrowVt<VtSend<Tail>> for VtSend<VTable<Head, Tail>> {
    open spec fn spec_narrow(self) -> VtSend<Tail> {
        VtSend(self.0.tail)
    }

    fn narrow(self) -> (r: VtSend<Tail>) {
        VtSend(self.0.tail)
    }

    proof fn lemma_narrow_keeps_end(self) {
    }
}

impl<Head, Tail: HasDropVt> NarrowVt<VtSync<Tail>> for VtSync<VTable<Head, Tail>> {
    open spec fn spec_narrow(self) -> VtSync<Tail> {
        VtSync(self.0.tail)
    }

    fn narrow(self) -> (r: VtSync<Tail>) {
        VtSync(self.0.tail)
    }

    proof fn lemma_narrow_keeps_end(self) {
    }
}

impl<Head, Tail: HasDropVt> NarrowVt<VtSync<VtSend<Tail>>> for VtSync<VtSend<VTable<Head, Tail>>> {
    open spec fn spec_narrow(self) -> VtSync<VtSend<Tail>> {
        VtSync(VtSend(self.0.0.tail))
    }

    fn narrow(self) -> (r: VtSync<VtSend<Tail>>) {
        VtSync(VtSend(self.0.0.tail))
    }

    proof fn lemma_narrow_keeps_end(self) {
    }
}

impl<Head, Tail: HasDropVt> NarrowVt<VtSend<VtSync<Tail>>> for VtSend<VtSync<VTable<Head, Tail>>> {
    open spec fn spec_narrow(self) -> VtSend<VtSync<Tail>> {
        VtSend(VtSync(self.0.0.tail))
    }

    fn narrow(self) -> (r: VtSend<VtSync<Tail>>) {
        VtSend(VtSync(self.0.0.tail))
    }

    proof fn lemma_narrow_keeps_end(self) {
    }
}

/// A table whose value for the concrete type `Source` ends in the destructor
/// and the report of `Source`, whatever capabilities and thread marks stand
/// before that end.
pub trait CanonicalEnd<Source: IStable>: HasDropVt + IConstConstructor<Source> {
    proof fn lemma_canonical_end()
        ensures
            Self::canonical().spec_drop_vt() == (VtDrop {
                drop: Source::spec_destructor(),
                report: Source::spec_report(),
            }),
    ;
}

impl<Source: IStable> CanonicalEnd<Source> for VtDrop {
    proof fn lemma_canonical_end() {
    }
}

impl<Source: IStable, Head: IConstConstructor<Source>, Tail: CanonicalEnd<Source>> CanonicalEnd<
    Source,
> for VTable<Head, Tail> {
    proof fn lemma_canonical_end() {
        Tail::lemma_canonical_end();
    }
}

impl<Source: IStable + Send, Vt: CanonicalEnd<Source>> CanonicalEnd<Source> for VtSend<Vt> {
    proof fn lemma_canonical_end() {
        Vt::lemma_canonical_end();
    }
}

impl<Source: IStable + Sync, Vt: CanonicalEnd<Source>> CanonicalEnd<Source> for VtSync<Vt> {
    proof fn lemma_canonical_end() {
        Vt::lemma_canonical_end();
    }
}

/// Whether two tables of type `Vt` can only be equal where their ends are:
/// equal tables then hold the same destructor and equal reports.
pub open spec fn equal_end<Vt: HasDropVt + PartialEq>() -> bool {
    forall|a: Vt, b: Vt| #[trigger]
        a.eq_spec(&b) ==> a.spec_drop_vt().eq_spec(&b.spec_drop_vt())
}

/// Tables that are nothing but an end are equal only where their ends are.
pub proof fn lemma_equal_end_drop()
    ensures
        equal_end::<VtDrop>(),
{
}

/// A table with one more capability is equal to another only where their
/// ends are, if that holds of its tail.
pub proof fn lemma_equal_end_capability<Head: PartialEq, Tail: HasDropVt + PartialEq>()
    requires
        equal_end::<Tail>(),
    ensures
        equal_end::<VTable<Head, Tail>>(),
{
    assert forall|a: VTable<Head, Tail>, b: VTable<Head, Tail>| #[trigger]
        a.eq_spec(&b) implies a.spec_drop_vt().eq_spec(&b.spec_drop_vt()) by {
        assert(a.tail.eq_spec(&b.tail));
    }
}

/// A table with a thread mark is equal to another only where their ends are,
/// if that holds of the table below the mark.
pub proof fn lemma_equal_end_send<Vt: HasDropVt + PartialEq>()
    requires
        equal_end::<Vt>(),
    ensures
        equal_end::<VtSend<Vt>>(),
{
    assert forall|a: VtSend<Vt>, b: VtSend<Vt>| #[trigger]
        a.eq_spec(&b) implies a.spec_drop_vt().eq_spec(&b.spec_drop_vt()) by {
        assert(a.0.eq_spec(&b.0));
    }
}

/// As [`lemma_equal_end_send`], for the other mark.
pub proof fn lemma_equal_end_sync<Vt: HasDropVt + PartialEq>()
    requires
        equal_end::<Vt>(),
    ensures
        equal_end::<VtSync<Vt>>(),
{
    assert forall|a: VtSync<Vt>, b: VtSync<Vt>| #[trigger]
        a.eq_spec(&b) implies a.spec_drop_vt().eq_spec(&b.spec_drop_vt()) by {
        assert(a.0.eq_spec(&b.0));
    }
}

/// Whether every table of type `Vt` is equal to itself.
pub open spec fn reflexive_eq<Vt: PartialEq>() -> bool {
    forall|a: Vt| #[trigger] a.eq_spec(&a)
}

/// A table that is nothing but an end is equal to itself.
pub proof fn lemma_reflexive_eq_drop()
    ensures
        reflexive_eq::<VtDrop>(),
{
    assert forall|a: VtDrop| #[trigger] a.eq_spec(&a) by {
        lemma_equal_reflexive(a.report);
    }
}

/// A table with one more capability is equal to itself, if that holds of the
/// capability and of the tail.
pub proof fn lemma_reflexive_eq_capability<Head: PartialEq, Tail: PartialEq>()
    requires
        reflexive_eq::<Head>(),
        reflexive_eq::<Tail>(),
    ensures
        reflexive_eq::<VTable<Head, Tail>>(),
{
    assert forall|a: VTable<Head, Tail>| #[trigger] a.eq_spec(&a) by {
        assert(a.head.eq_spec(&a.head));
        assert(a.tail.eq_spec(&a.tail));
    }
}

/// A table with a thread mark is equal to itself, if that holds of the table
/// below the mark.
pub proof fn lemma_reflexive_eq_send<Vt: PartialEq>()
    requires
        reflexive_eq::<Vt>(),
    ensures
        reflexive_eq::<VtSend<Vt>>(),
{
    assert forall|a: VtSend<Vt>| #[trigger] a.eq_spec(&a) by {
        assert(a.0.eq_spec(&a.0));
    }
}

/// As [`lemma_reflexive_eq_send`], for the other mark.
pub proof fn lemma_reflexive_eq_sync<Vt: PartialEq>()
    requires
        reflexive_eq::<Vt>(),
    ensures
        reflexive_eq::<VtSync<Vt>>(),
{
    assert forall|a: VtSync<Vt>| #[trigger] a.eq_spec(&a) by {
        assert(a.0.eq_spec(&a.0));
    }
}

/// Narrowing composes: taking both thread marks off a table at once gives the
/// table that taking them off one after the other gives, whichever goes
/// first.
pub proof fn lemma_narrow_sync_send<Vt: HasDropVt>(t: VtSync<VtSend<Vt>>)
    ensures
        <VtSync<VtSend<Vt>> as NarrowVt<Vt>>::spec_narrow(t) == <VtSend<Vt> as NarrowVt<
            Vt,
        >>::spec_narrow(<VtSync<VtSend<Vt>> as NarrowVt<VtSend<Vt>>>::spec_narrow(t)),
        <VtSync<VtSend<Vt>> as NarrowVt<Vt>>::spec_narrow(t) == <VtSync<Vt> as NarrowVt<
            Vt,
        >>::spec_narrow(<VtSync<VtSend<Vt>> as NarrowVt<VtSync<Vt>>>::spec_narrow(t)),
{
}

/// Narrowing composes: as [`lemma_narrow_sync_send`], for the marks in the
/// other order.
pub proof fn lemma_narrow_send_sync<Vt: HasDropVt>(t: VtSend<VtSync<Vt>>)
    ensures
        <VtSend<VtSync<Vt>> as NarrowVt<Vt>>::spec_narrow(t) == <VtSync<Vt> as NarrowVt<
            Vt,
        >>::spec_narrow(<VtSend<VtSync<Vt>> as NarrowVt<VtSync<Vt>>>::spec_narrow(t)),
        <VtSend<VtSync<Vt>> as NarrowVt<Vt>>::spec_narrow(t) == <VtSend<Vt> as NarrowVt<
            Vt,
        >>::spec_narrow(<VtSend<VtSync<Vt>> as NarrowVt<VtSend<Vt>>>::spec_narrow(t)),
{
}

/// Narrowing composes: taking the mark and the outermost capability off a
/// marked table at once gives the table that taking them off one after the
/// other gives, whichever goes first.
pub proof fn lemma_narrow_send_capability<Head, Tail: HasDropVt>(t: VtSend<VTable<Head, Tail>>)
    ensures
        <VtSend<VTable<Head, Tail>> as NarrowVt<Tail>>::spec_narrow(t) == <VTable<
            Head,
            Tail,
        > as NarrowVt<Tail>>::spec_narrow(
            <VtSend<VTable<Head, Tail>> as NarrowVt<VTable<Head, Tail>>>::spec_narrow(t),
        ),
        <VtSend<VTable<Head, Tail>> as NarrowVt<Tail>>::spec_narrow(t) == <VtSend<
            Tail,
        > as NarrowVt<Tail>>::spec_narrow(
            <VtSend<VTable<Head, Tail>> as NarrowVt<VtSend<Tail>>>::spec_narrow(t),
        ),
{
}

/// Narrowing composes: as [`lemma_narrow_send_capability`], for the other
/// mark.
pub proof fn lemma_narrow_sync_capability<Head, Tail: HasDropVt>(t: VtSync<VTable<Head, Tail>>)
    ensures
        <VtSync<VTable<Head, Tail>> as NarrowVt<Tail>>::spec_narrow(t) == <VTable<
            Head,
            Tail,
        > as NarrowVt<Tail>>::spec_narrow(
            <VtSync<VTable<Head, Tail>> as NarrowVt<VTable<Head, Tail>>>::spec_narrow(t),
        ),
        <VtSync<VTable<Head, Tail>> as NarrowVt<Tail>>::spec_narrow(t) == <VtSync<
            Tail,
        > as NarrowVt<Tail>>::spec_narrow(
            <VtSync<VTable<Head, Tail>> as NarrowVt<VtSync<Tail>>>::spec_narrow(t),
        ),
{
}

/// Narrowing composes: taking both marks and the outermost capability off a
/// table at once gives the table that is reached by taking the capability
/// off below the marks and then the marks, and the one that is reached by
/// taking the marks off and then the capability.
pub proof fn lemma_narrow_sync_send_capability<Head, Tail: HasDropVt>(
    t: VtSync<VtSend<VTable<Head, Tail>>>,
)
    ensures
        <VtSync<VtSend<VTable<Head, Tail>>> as NarrowVt<Tail>>::spec_narrow(t) == <VtSync<
            VtSend<Tail>,
        > as NarrowVt<Tail>>::spec_narrow(
            <VtSync<VtSend<VTable<Head, Tail>>> as NarrowVt<VtSync<VtSend<Tail>>>>::spec_narrow(t),
        ),
        <VtSync<VtSend<VTable<Head, Tail>>> as NarrowVt<Tail>>::spec_narrow(t) == <VTable<
            Head,
            Tail,
        > as NarrowVt<Tail>>::spec_narrow(
            <VtSync<VtSend<VTable<Head, Tail>>> as NarrowVt<VTable<Head, Tail>>>::spec_narrow(t),
        ),
{
}

/// Narrowing composes: as [`lemma_narrow_sync_send_capability`], for the
/// marks in the other order.
pub proof fn lemma_narrow_send_sync_capability<Head, Tail: HasDropVt>(
    t: VtSend<VtSync<VTable<Head, Tail>>>,
)
    ensures
        <VtSend<VtSync<VTable<Head, Tail>>> as NarrowVt<Tail>>::spec_narrow(t) == <VtSend<
            VtSync<Tail>,
        > as NarrowVt<Tail>>::spec_narrow(
            <VtSend<VtSync<VTable<Head, Tail>>> as NarrowVt<VtSend<VtSync<Tail>>>>::spec_narrow(t),
        ),
        <VtSend<VtSync<VTable<Head, Tail>>> as NarrowVt<Tail>>::spec_narrow(t) == <VTable<
            Head,
            Tail,
        > as NarrowVt<Tail>>::spec_narrow(
            <VtSend<VtSync<VTable<Head, Tail>>> as NarrowVt<VTable<Head, Tail>>>::spec_narrow(t),
        ),
{
}

/// Narrowing composes over two capabilities: from a marked table of the
/// capabilities `Outer` and `Inner`, taking `Outer` off below the mark and
/// then the mark with `Inner` reaches the table that taking the mark with
/// `Outer` off and then `Inner` reaches.
pub proof fn lemma_narrow_two_capabilities<Outer, Inner, Tail: HasDropVt>(
    t: VtSend<VTable<Outer, VTable<Inner, Tail>>>,
)
    ensures
        <VtSend<VTable<Inner, Tail>> as NarrowVt<Tail>>::spec_narrow(
            <VtSend<VTable<Outer, VTable<Inner, Tail>>> as NarrowVt<
                VtSend<VTable<Inner, Tail>>,
            >>::spec_narrow(t),
        ) == <VTable<Inner, Tail> as NarrowVt<Tail>>::spec_narrow(
            <VtSend<VTable<Outer, VTable<Inner, Tail>>> as NarrowVt<
                VTable<Inner, Tail>,
            >>::spec_narrow(t),
        ),
{
}

/// Narrowing the table of a concrete type gives the table of that type for
/// the capabilities that are left: here, with the outermost capability taken
/// off.
pub proof fn lemma_narrow_canonical<Source, Head: IConstConstructor<Source>, Tail: HasDropVt
    + IConstConstructor<Source>>()
    ensures
        <VTable<Head, Tail> as NarrowVt<Tail>>::spec_narrow(
            <VTable<Head, Tail> as IConstConstructor<Source>>::canonical(),
        ) == <Tail as IConstConstructor<Source>>::canonical(),
{
}

/// Narrowing the table of a concrete type gives the table of that type for
/// the capabilities that are left: here, with the outermost capability taken
/// off below a thread mark that stays.
pub proof fn lemma_narrow_canonical_send<Source: Send, Head: IConstConstructor<
    Source,
>, Tail: HasDropVt + IConstConstructor<Source>>()
    ensures
        <VtSend<VTable<Head, Tail>> as NarrowVt<VtSend<Tail>>>::spec_narrow(
            <VtSend<VTable<Head, Tail>> as IConstConstructor<Source>>::canonical(),
        ) == <VtSend<Tail> as IConstConstructor<Source>>::canonical(),
        <VtSend<Tail> as NarrowVt<Tail>>::spec_narrow(
            <VtSend<Tail> as IConstConstructor<Source>>::canonical(),
        ) == <Tail as IConstConstructor<Source>>::canonical(),
{
}

} // verus!
