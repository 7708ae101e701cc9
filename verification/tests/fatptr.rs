use core::any::Any;
use stabby_abi::fatptr::{
    Dyn, DynRef, IPtr, IPtrMut, IPtrOwned, IPtrTryAsMut, IntoDyn, IntoSuperTrait, Reinterpret,
};
use stabby_abi::report::{FieldReport, TyTy, TypeReport, Version};
use stabby_abi::vtable::{
    HasDropVt, IConstConstructor, IStable, NarrowVt, VTable, VtDrop, VtSend, VtSync,
};
use std::cell::RefCell;
use std::marker::PhantomData;
use std::rc::Rc;

/// What stands for an erased value in these tests.
trait Object: Any {
    fn as_any(&self) -> &dyn Any;
    fn as_any_mut(&mut self) -> &mut dyn Any;
}

impl<T: Any> Object for T {
    fn as_any(&self) -> &dyn Any {
        self
    }
    fn as_any_mut(&mut self) -> &mut dyn Any {
        self
    }
}

impl<U: 'static> Reinterpret<U> for dyn Object {
    fn reinterpret(&self) -> Option<&U> {
        self.as_any().downcast_ref::<U>()
    }
    fn reinterpret_mut(&mut self) -> Option<&mut U> {
        self.as_any_mut().downcast_mut::<U>()
    }
    // The two that follow stand for the library's statements and never run.
    fn holds(&self) -> bool {
        self.as_any().is::<U>()
    }
    fn value(&self) -> U {
        unreachable!()
    }
}

#[derive(Debug, Clone, PartialEq)]
struct Point {
    x: i32,
    y: i32,
}

#[derive(Debug, Clone, PartialEq)]
struct Line {
    from: Point,
    to: Point,
}

const POINT_DROP: usize = 0x1000;
const LINE_DROP: usize = 0x2000;

fn leak<T>(value: T) -> &'static T {
    Box::leak(Box::new(value))
}

fn i32_report() -> &'static TypeReport {
    &TypeReport {
        name: "i32",
        module: "core",
        fields: None,
        last_break: Version { major: 0, minor: 0, patch: 0, dirty: false },
        tyty: TyTy::Struct,
    }
}

impl IStable for Point {
    fn report() -> &'static TypeReport {
        &TypeReport {
            name: "Point",
            module: "shapes",
            fields: Some(&FieldReport {
                name: "x",
                ty: &TypeReport {
                    name: "i32",
                    module: "core",
                    fields: None,
                    last_break: Version { major: 0, minor: 0, patch: 0, dirty: false },
                    tyty: TyTy::Struct,
                },
                next_field: Some(&FieldReport {
                    name: "y",
                    ty: &TypeReport {
                        name: "i32",
                        module: "core",
                        fields: None,
                        last_break: Version { major: 0, minor: 0, patch: 0, dirty: false },
                        tyty: TyTy::Struct,
                    },
                    next_field: None,
                }),
            }),
            last_break: Version { major: 1, minor: 0, patch: 0, dirty: false },
            tyty: TyTy::Struct,
        }
    }
    fn destructor() -> usize {
        POINT_DROP
    }
    fn spec_report() -> &'static TypeReport {
        Point::report()
    }
    fn spec_destructor() -> usize {
        POINT_DROP
    }
}

impl IStable for Line {
    fn report() -> &'static TypeReport {
        &TypeReport {
            name: "Line",
            module: "shapes",
            fields: None,
            last_break: Version { major: 1, minor: 0, patch: 0, dirty: false },
            tyty: TyTy::Struct,
        }
    }
    fn destructor() -> usize {
        LINE_DROP
    }
    fn spec_report() -> &'static TypeReport {
        Line::report()
    }
    fn spec_destructor() -> usize {
        LINE_DROP
    }
}

/// The capability of being rendered as text.
#[derive(Clone, Copy)]
struct VtDisplay {
    fmt: fn(&dyn Object) -> String,
    of: usize,
}

impl PartialEq for VtDisplay {
    fn eq(&self, other: &VtDisplay) -> bool {
        self.of == other.of
    }
}

fn fmt_point(o: &dyn Object) -> String {
    let p = o.as_any().downcast_ref::<Point>().unwrap();
    format!("({}, {})", p.x, p.y)
}

fn fmt_line(o: &dyn Object) -> String {
    let l = o.as_any().downcast_ref::<Line>().unwrap();
    format!("({}, {}) - ({}, {})", l.from.x, l.from.y, l.to.x, l.to.y)
}

impl IConstConstructor<Point> for VtDisplay {
    fn vtable() -> VtDisplay {
        VtDisplay { fmt: fmt_point, of: POINT_DROP }
    }
    fn canonical() -> VtDisplay {
        <VtDisplay as IConstConstructor<Point>>::vtable()
    }
}

impl IConstConstructor<Line> for VtDisplay {
    fn vtable() -> VtDisplay {
        VtDisplay { fmt: fmt_line, of: LINE_DROP }
    }
    fn canonical() -> VtDisplay {
        <VtDisplay as IConstConstructor<Line>>::vtable()
    }
}

/// The capability of telling how many numbers a value holds.
#[derive(Debug, Clone, Copy, PartialEq)]
struct VtCount {
    numbers: u32,
}

impl IConstConstructor<Point> for VtCount {
    fn vtable() -> VtCount {
        VtCount { numbers: 2 }
    }
    fn canonical() -> VtCount {
        VtCount { numbers: 2 }
    }
}

impl IConstConstructor<Line> for VtCount {
    fn vtable() -> VtCount {
        VtCount { numbers: 4 }
    }
    fn canonical() -> VtCount {
        VtCount { numbers: 4 }
    }
}

type Log = Rc<RefCell<Vec<usize>>>;

/// An owning pointer to an erased value, which writes down each destructor
/// that it is asked to run.
struct Owner {
    value: Box<dyn Object>,
    log: Log,
}

impl IPtr for Owner {
    type Erased = dyn Object;
    fn as_ref(&self) -> &dyn Object {
        &*self.value
    }
    fn pointee(&self) -> &dyn Object {
        &*self.value
    }
}

impl IPtrMut for Owner {
    fn as_mut(&mut self) -> &mut dyn Object {
        &mut *self.value
    }
}

impl IPtrOwned for Owner {
    fn drop(this: Owner, drop: usize) -> Option<usize> {
        this.log.borrow_mut().push(drop);
        Some(drop)
    }
    fn owns() -> bool {
        true
    }
}

/// A value on its way into an owning fat pointer.
struct Owned<T> {
    value: T,
    log: Log,
}

impl<T: Any> IntoDyn for Owned<T> {
    type Anonymized = Owner;
    type Target = T;
    fn anonimize(self) -> Owner {
        Owner { value: Box::new(self.value), log: self.log }
    }
    fn source(&self) -> T {
        unreachable!()
    }
    fn spec_anonimize(self) -> Owner {
        self.anonimize()
    }
}

/// An owning pointer that may have siblings: it can hand out its pointee for
/// changes only while it has none.
struct Shared {
    value: Rc<Point>,
    log: Log,
}

impl IPtr for Shared {
    type Erased = dyn Object;
    fn as_ref(&self) -> &dyn Object {
        &*self.value
    }
    fn pointee(&self) -> &dyn Object {
        &*self.value
    }
}

impl IPtrTryAsMut for Shared {
    fn try_as_mut(&mut self) -> Option<&mut dyn Object> {
        match Rc::get_mut(&mut self.value) {
            Some(p) => Some(p),
            None => None,
        }
    }
    fn exclusive(&self) -> bool {
        Rc::strong_count(&self.value) == 1
    }
}

impl IPtrOwned for Shared {
    fn drop(this: Shared, drop: usize) -> Option<usize> {
        this.log.borrow_mut().push(drop);
        Some(drop)
    }
    fn owns() -> bool {
        true
    }
}

impl IntoDyn for Shared {
    type Anonymized = Shared;
    type Target = Point;
    fn anonimize(self) -> Shared {
        self
    }
    fn source(&self) -> Point {
        (*self.value).clone()
    }
    fn spec_anonimize(self) -> Shared {
        self
    }
}

/// A shared reference on its way into a fat pointer.
struct Typed<'a, T>(&'a T);

impl<'a, T: Any> IntoDyn for Typed<'a, T> {
    type Anonymized = &'a dyn Object;
    type Target = T;
    fn anonimize(self) -> &'a dyn Object {
        self.0
    }
    fn source(&self) -> T {
        unreachable!()
    }
    fn spec_anonimize(self) -> &'a dyn Object {
        self.0
    }
}

/// A mutable reference on its way into a fat pointer.
struct TypedMut<'a, T>(&'a mut T);

impl<'a, T: Any> IntoDyn for TypedMut<'a, T> {
    type Anonymized = &'a mut dyn Object;
    type Target = T;
    fn anonimize(self) -> &'a mut dyn Object {
        self.0
    }
    fn source(&self) -> T {
        unreachable!()
    }
    fn spec_anonimize(self) -> &'a mut dyn Object {
        self.0
    }
}

fn new_log() -> Log {
    Rc::new(RefCell::new(Vec::new()))
}

fn owned<T>(value: T, log: &Log) -> Owned<T> {
    Owned { value, log: log.clone() }
}

type Plain = VTable<VtDisplay, VtDrop>;
type Two = VTable<VtCount, VTable<VtDisplay, VtDrop>>;

#[test]
fn point_through_display_table() {
    let log = new_log();
    let v = Point { x: 3, y: -4 };
    let d: Dyn<Owner, Plain> = Dyn::from(owned(v.clone(), &log));
    let text = (d.vtable().head.fmt)(d.ptr().as_ref());
    assert_eq!(text, format!("({}, {})", v.x, v.y));
    assert_eq!(text, "(3, -4)");
    assert_eq!(d.stable_downcast_ref::<Point>(), Some(&v));
    assert_eq!(d.stable_downcast_ref::<Line>(), None);
    assert_eq!(d.destroy(), Some(POINT_DROP));
    assert_eq!(*log.borrow(), vec![POINT_DROP]);
}

#[test]
fn line_through_display_table() {
    let log = new_log();
    let v = Line { from: Point { x: 0, y: 1 }, to: Point { x: 2, y: 3 } };
    let d: Dyn<Owner, Plain> = Dyn::from(owned(v.clone(), &log));
    assert_eq!((d.vtable().head.fmt)(d.ptr().as_ref()), "(0, 1) - (2, 3)");
    assert_eq!(d.stable_downcast_ref::<Line>(), Some(&v));
    assert_eq!(d.stable_downcast_ref::<Point>(), None);
    assert_eq!(d.destroy(), Some(LINE_DROP));
}

#[test]
fn a_reference_casts_back_to_its_value() {
    let v = Point { x: 1, y: 2 };
    let r: DynRef<dyn Object, VtSend<Plain>> = DynRef::from(Typed(&v));
    assert_eq!(r.downcast::<Point>(), Some(&v));
    assert_eq!(r.stable_downcast::<Point>(), Some(&v));
    let w = Line { from: v.clone(), to: Point { x: 5, y: 6 } };
    let r: DynRef<dyn Object, VtDrop> = DynRef::from(Typed(&w));
    assert_eq!(r.downcast::<Line>(), Some(&w));
    assert_eq!(r.stable_downcast::<Line>(), Some(&w));
}

#[test]
fn an_object_casts_back_to_its_value() {
    let log = new_log();
    let v = Point { x: -7, y: 8 };
    let d: Dyn<Owner, VtSync<VtSend<Two>>> = Dyn::from(owned(v.clone(), &log));
    assert_eq!(d.downcast_ref::<Point>(), Some(&v));
    assert_eq!(d.stable_downcast_ref::<Point>(), Some(&v));
    assert_eq!(d.as_ref().downcast::<Point>(), Some(&v));
    assert_eq!(d.as_ref().stable_downcast::<Point>(), Some(&v));
    assert!(log.borrow().is_empty());
}

#[test]
fn a_cast_to_another_type_misses() {
    let log = new_log();
    let v = Point { x: 1, y: 2 };
    let d: Dyn<Owner, Two> = Dyn::from(owned(v.clone(), &log));
    assert_eq!(d.downcast_ref::<Line>(), None);
    assert_eq!(d.stable_downcast_ref::<Line>(), None);
    let r = d.as_ref();
    assert_eq!(r.downcast::<Line>(), None);
    assert_eq!(r.stable_downcast::<Line>(), None);
    let r: DynRef<dyn Object, Plain> = DynRef::from(Typed(&v));
    assert_eq!(r.downcast::<Line>(), None);
    assert_eq!(r.stable_downcast::<Line>(), None);
}

#[test]
fn a_mutable_cast_to_another_type_misses_and_changes_nothing() {
    let log = new_log();
    let v = Point { x: 1, y: 2 };
    let mut d: Dyn<Owner, Plain> = Dyn::from(owned(v.clone(), &log));
    assert!(d.downcast_mut::<Line>().is_none());
    assert!(d.stable_downcast_mut::<Line>().is_none());
    assert_eq!(d.downcast_ref::<Point>(), Some(&v));
}

#[test]
fn a_table_of_another_type_misses_whatever_the_pointee_is() {
    let v = Point { x: 1, y: 2 };
    let r: DynRef<dyn Object, Plain> =
        DynRef { ptr: &v, vtable: <Plain as IConstConstructor<Line>>::vtable(), unsend: PhantomData };
    assert_eq!(r.downcast::<Point>(), None);
    assert_eq!(r.stable_downcast::<Point>(), None);
    assert_eq!(r.downcast::<Line>(), None);
    assert_eq!(r.stable_downcast::<Line>(), None);
}

#[test]
fn a_compatible_report_is_enough_for_the_cast_by_report_only() {
    let v = Point { x: 1, y: 2 };
    let longer = leak(TypeReport {
        fields: Some(leak(FieldReport {
            name: "x",
            ty: i32_report(),
            next_field: Some(leak(FieldReport {
                name: "y",
                ty: i32_report(),
                next_field: Some(leak(FieldReport {
                    name: "z",
                    ty: i32_report(),
                    next_field: None,
                })),
            })),
        })),
        ..*Point::report()
    });
    assert!(longer.is_compatible(Point::report()));
    assert!(longer != Point::report());
    let r: DynRef<dyn Object, VtDrop> =
        DynRef { ptr: &v, vtable: VtDrop { drop: POINT_DROP, report: longer }, unsend: PhantomData };
    assert_eq!(r.stable_downcast::<Point>(), Some(&v));
    assert_eq!(r.downcast::<Point>(), None);
}

#[test]
fn a_dirty_report_does_not_cast() {
    let v = Point { x: 1, y: 2 };
    let dirty = leak(TypeReport {
        last_break: Version { dirty: true, ..Point::report().last_break },
        ..*Point::report()
    });
    let r: DynRef<dyn Object, VtDrop> =
        DynRef { ptr: &v, vtable: VtDrop { drop: POINT_DROP, report: dirty }, unsend: PhantomData };
    assert_eq!(r.stable_downcast::<Point>(), None);
    assert_eq!(r.downcast::<Point>(), None);
}

#[test]
fn a_mutable_cast_writes_through() {
    let log = new_log();
    let mut d: Dyn<Owner, Plain> = Dyn::from(owned(Point { x: 1, y: 2 }, &log));
    d.downcast_mut::<Point>().unwrap().x = 10;
    assert_eq!(d.downcast_ref::<Point>(), Some(&Point { x: 10, y: 2 }));
    d.stable_downcast_mut::<Point>().unwrap().y = 20;
    assert_eq!(d.stable_downcast_ref::<Point>(), Some(&Point { x: 10, y: 20 }));
    assert_eq!((d.vtable().head.fmt)(d.ptr().as_ref()), "(10, 20)");
}

#[test]
fn a_mutable_borrow_writes_through_and_owns_nothing() {
    let log = new_log();
    let mut d: Dyn<Owner, Plain> = Dyn::from(owned(Point { x: 1, y: 2 }, &log));
    {
        let mut m = d.as_mut();
        assert!(*m.vtable() == <Plain as IConstConstructor<Point>>::vtable());
        m.downcast_mut::<Point>().unwrap().x = 5;
        assert_eq!(m.destroy(), None);
    }
    assert!(log.borrow().is_empty());
    assert_eq!(d.downcast_ref::<Point>(), Some(&Point { x: 5, y: 2 }));
    assert_eq!(d.destroy(), Some(POINT_DROP));
    assert_eq!(*log.borrow(), vec![POINT_DROP]);
}

#[test]
fn an_object_made_of_a_mutable_reference_owns_nothing() {
    let mut v = Point { x: 1, y: 2 };
    {
        let mut d: Dyn<&mut dyn Object, Plain> = Dyn::from(TypedMut(&mut v));
        d.stable_downcast_mut::<Point>().unwrap().y = -2;
        assert_eq!(d.downcast_ref::<Point>(), Some(&Point { x: 1, y: -2 }));
        assert_eq!(d.destroy(), None);
    }
    assert_eq!(v, Point { x: 1, y: -2 });
}

#[test]
fn the_pointer_of_a_mutable_reference_runs_no_destructor() {
    let mut v = Point { x: 1, y: 2 };
    let p: &mut dyn Object = &mut v;
    assert_eq!(<&mut dyn Object as IPtrOwned>::drop(p, POINT_DROP), None);
    assert_eq!(v, Point { x: 1, y: 2 });
}

#[test]
fn try_as_mut_of_a_mutable_pointer_always_yields() {
    let log = new_log();
    let mut d: Dyn<Owner, Plain> = Dyn::from(owned(Point { x: 1, y: 2 }, &log));
    {
        let mut m = d.try_as_mut().unwrap();
        m.downcast_mut::<Point>().unwrap().x = 9;
    }
    assert_eq!(d.downcast_ref::<Point>(), Some(&Point { x: 9, y: 2 }));
    let mut owner = Owner { value: Box::new(Point { x: 0, y: 0 }), log: log.clone() };
    assert!(IPtrTryAsMut::try_as_mut(&mut owner).is_some());
}

#[test]
fn try_as_mut_of_a_shared_pointer_yields_only_while_it_is_alone() {
    let log = new_log();
    let value = Rc::new(Point { x: 1, y: 2 });
    let sibling = value.clone();
    let mut d: Dyn<Shared, Plain> = Dyn::from(Shared { value, log: log.clone() });
    assert!(d.try_as_mut().is_none());
    assert_eq!(d.stable_downcast_ref::<Point>(), Some(&Point { x: 1, y: 2 }));
    drop(sibling);
    {
        let mut m = d.try_as_mut().unwrap();
        m.downcast_mut::<Point>().unwrap().x = 4;
        assert_eq!(m.destroy(), None);
    }
    assert_eq!(d.stable_downcast_ref::<Point>(), Some(&Point { x: 4, y: 2 }));
    assert_eq!(d.destroy(), Some(POINT_DROP));
    assert_eq!(*log.borrow(), vec![POINT_DROP]);
}

#[test]
fn destroying_runs_the_destructor_of_the_type_once() {
    let log = new_log();
    let d: Dyn<Owner, VtSend<Two>> = Dyn::from(owned(Point { x: 1, y: 2 }, &log));
    assert!(log.borrow().is_empty());
    assert_eq!(d.destroy(), Some(POINT_DROP));
    assert_eq!(*log.borrow(), vec![POINT_DROP]);
    let d: Dyn<Owner, VtDrop> =
        Dyn::from(owned(Line { from: Point { x: 0, y: 0 }, to: Point { x: 1, y: 1 } }, &log));
    assert_eq!(d.destroy(), Some(LINE_DROP));
    assert_eq!(*log.borrow(), vec![POINT_DROP, LINE_DROP]);
}

#[test]
fn narrowing_and_borrowing_run_no_destructor() {
    let log = new_log();
    let v = Point { x: 1, y: 2 };
    let d: Dyn<Owner, VtSend<Two>> = Dyn::from(owned(v.clone(), &log));
    {
        let r = d.as_ref();
        let r: DynRef<dyn Object, VtSend<VTable<VtDisplay, VtDrop>>> = r.into_super();
        let r: DynRef<dyn Object, VtDrop> = r.into_super();
        assert_eq!(r.stable_downcast::<Point>(), Some(&v));
    }
    assert!(log.borrow().is_empty());
    let d: Dyn<Owner, VtSend<Plain>> = d.into_super();
    assert!(log.borrow().is_empty());
    let d: Dyn<Owner, Plain> = d.into_super();
    assert!(log.borrow().is_empty());
    let d: Dyn<Owner, VtDrop> = d.into_super();
    assert!(log.borrow().is_empty());
    assert_eq!(d.stable_downcast_ref::<Point>(), Some(&v));
    assert_eq!(d.destroy(), Some(POINT_DROP));
    assert_eq!(*log.borrow(), vec![POINT_DROP]);
}

#[test]
fn a_narrowed_object_still_casts_back() {
    let log = new_log();
    let v = Point { x: 1, y: 2 };
    let d: Dyn<Owner, VtSync<VtSend<Two>>> = Dyn::from(owned(v.clone(), &log));
    let d: Dyn<Owner, VtSync<VtSend<Plain>>> = d.into_super();
    assert_eq!(d.downcast_ref::<Point>(), Some(&v));
    assert_eq!(d.stable_downcast_ref::<Point>(), Some(&v));
    assert_eq!(d.downcast_ref::<Line>(), None);
    let d: Dyn<Owner, VtSync<Plain>> = d.into_super();
    assert_eq!(d.downcast_ref::<Point>(), Some(&v));
    let d: Dyn<Owner, VtDrop> = d.into_super();
    assert_eq!(d.downcast_ref::<Point>(), Some(&v));
    assert_eq!(d.stable_downcast_ref::<Line>(), None);
}

#[test]
fn narrowing_takes_off_the_outermost_capability() {
    let full = <Two as IConstConstructor<Point>>::vtable();
    let narrowed: Plain = full.narrow();
    assert!(narrowed == <Plain as IConstConstructor<Point>>::vtable());
    assert!(narrowed.head.of == POINT_DROP);
    let end: VtDrop = narrowed.narrow();
    assert_eq!(end, VtDrop { drop: POINT_DROP, report: Point::report() });
}

#[test]
fn narrowing_paths_reach_the_same_table() {
    let full = <VtSync<VtSend<Two>> as IConstConstructor<Point>>::vtable();
    let direct: VTable<VtDisplay, VtDrop> = full.narrow();
    let kept: VtSync<VtSend<Plain>> = full.narrow();
    let by_marks_last: Plain = kept.narrow();
    let unmarked: Two = full.narrow();
    let by_marks_first: Plain = unmarked.narrow();
    let sync_only: VtSync<Two> = full.narrow();
    let by_sync: Plain = sync_only.narrow();
    let send_only: VtSend<Two> = full.narrow();
    let by_send: Plain = send_only.narrow();
    assert!(direct == by_marks_last);
    assert!(direct == by_marks_first);
    assert!(direct == by_sync);
    assert!(direct == by_send);
    assert!(direct == <Plain as IConstConstructor<Point>>::vtable());
    let one_by_one: VtSync<Plain> = kept.narrow();
    let other_way: VtSync<Plain> = sync_only.narrow();
    assert!(one_by_one == other_way);
}

#[test]
fn narrowing_paths_of_the_other_mark_order_reach_the_same_table() {
    let full = <VtSend<VtSync<Two>> as IConstConstructor<Line>>::vtable();
    let direct: Plain = full.narrow();
    let kept: VtSend<VtSync<Plain>> = full.narrow();
    let by_marks_last: Plain = kept.narrow();
    let unmarked: Two = full.narrow();
    let by_marks_first: Plain = unmarked.narrow();
    assert!(direct == by_marks_last);
    assert!(direct == by_marks_first);
    assert!(direct == <Plain as IConstConstructor<Line>>::vtable());
    assert!(direct != <Plain as IConstConstructor<Point>>::vtable());
    let send_only: VtSend<Two> = full.narrow();
    let sync_only: VtSync<Two> = full.narrow();
    let a: Two = send_only.narrow();
    let b: Two = sync_only.narrow();
    assert!(a == b);
    assert!(a == unmarked);
}

#[test]
fn narrowing_keeps_the_pointer_and_the_end_of_the_table() {
    let log = new_log();
    let v = Point { x: 1, y: 2 };
    let d: Dyn<Owner, VtSend<Two>> = Dyn::from(owned(v.clone(), &log));
    let end = *d.vtable().drop_vt();
    assert_eq!(end, VtDrop { drop: POINT_DROP, report: Point::report() });
    let d: Dyn<Owner, VtSend<Plain>> = IntoSuperTrait::into_super(d);
    assert_eq!(*d.vtable().drop_vt(), end);
    assert_eq!(d.ptr().as_ref().reinterpret(), Some(&v));
    let d: Dyn<Owner, VtDrop> = d.into_super();
    assert_eq!(*d.vtable(), end);
    assert_eq!(d.ptr().as_ref().reinterpret(), Some(&v));
}

#[test]
fn the_pointer_and_the_table_can_be_read() {
    let log = new_log();
    let v = Point { x: 1, y: 2 };
    let mut d: Dyn<Owner, Plain> = Dyn::from(owned(v.clone(), &log));
    assert!(*d.vtable() == <Plain as IConstConstructor<Point>>::vtable());
    assert_eq!(d.ptr().as_ref().reinterpret(), Some(&v));
    let w = Point { x: 8, y: 9 };
    d.ptr_mut().value = Box::new(w.clone());
    assert_eq!(d.downcast_ref::<Point>(), Some(&w));
    let r = d.as_ref();
    assert!(*r.vtable() == *d.vtable());
    assert_eq!(r.ptr().reinterpret(), Some(&w));
    let copy = r;
    assert_eq!(copy.downcast::<Point>(), r.downcast::<Point>());
    assert_eq!(r.clone().stable_downcast::<Point>(), Some(&w));
}

#[test]
fn tables_are_equal_by_their_parts() {
    let point = <VtSend<Two> as IConstConstructor<Point>>::vtable();
    let line = <VtSend<Two> as IConstConstructor<Line>>::vtable();
    assert!(point == <VtSend<Two> as IConstConstructor<Point>>::vtable());
    assert!(point != line);
    let other_head = VtSend(VTable { head: VtCount { numbers: 3 }, tail: point.0.tail });
    assert!(point != other_head);
    let other_end = VtDrop { drop: LINE_DROP, report: Point::report() };
    assert_ne!(<VtDrop as IConstConstructor<Point>>::vtable(), other_end);
    assert_ne!(
        <VtDrop as IConstConstructor<Point>>::vtable(),
        VtDrop { drop: POINT_DROP, report: Line::report() }
    );
    assert_eq!(
        VtSync(<VtDrop as IConstConstructor<Point>>::vtable()),
        <VtSync<VtDrop> as IConstConstructor<Point>>::vtable()
    );
}

#[test]
fn the_table_of_a_type_ends_in_its_destructor_and_report() {
    let t = <VtSync<VtSend<Two>> as IConstConstructor<Line>>::vtable();
    assert_eq!(*t.drop_vt(), VtDrop { drop: LINE_DROP, report: Line::report() });
    assert_eq!(t.0.0.head, VtCount { numbers: 4 });
    assert_eq!((t.0.0.tail.head.fmt)(&Line {
        from: Point { x: 1, y: 1 },
        to: Point { x: 2, y: 2 }
    }), "(1, 1) - (2, 2)");
    let end = <VtDrop as IConstConstructor<Point>>::vtable();
    assert_eq!(*end.drop_vt(), end);
}

#[test]
fn a_value_can_be_looked_at_as_what_it_is() {
    let mut v = Point { x: 1, y: 2 };
    assert_eq!(v.reinterpret(), Some(&Point { x: 1, y: 2 }));
    v.reinterpret_mut().unwrap().x = 3;
    assert_eq!(v, Point { x: 3, y: 2 });
    let r: DynRef<Point, VtDrop> =
        DynRef { ptr: &v, vtable: <VtDrop as IConstConstructor<Point>>::vtable(), unsend: PhantomData };
    assert_eq!(r.downcast::<Point>(), Some(&v));
    assert_eq!(r.stable_downcast::<Point>(), Some(&v));
}

#[test]
fn a_plain_reference_keeps_the_type_of_its_pointee() {
    let v = Point { x: 6, y: 7 };
    let r: DynRef<Point, VtSend<Plain>> = DynRef::from(&v);
    assert_eq!(r.ptr(), &v);
    assert!(*r.vtable() == <VtSend<Plain> as IConstConstructor<Point>>::vtable());
    assert_eq!(r.downcast::<Point>(), Some(&v));
    assert_eq!(r.stable_downcast::<Point>(), Some(&v));
    let r: DynRef<Point, Plain> = r.into_super();
    assert_eq!((r.vtable().head.fmt)(r.ptr()), "(6, 7)");
    assert_eq!(IntoDyn::anonimize(&v), &v);
}
