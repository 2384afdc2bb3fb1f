use std::borrow::Cow;
use std::rc::Rc;
use vstd::prelude::*;

verus! {

/// A value that can be turned into an owned form which borrows from no scope.
///
/// `converts_to` says which owned values a conversion of `self` may produce;
/// every implementation of `into_static` delivers one of them.
pub trait Ownit: Sized {
    /// The owned version of the implementing type.
    ///
    /// Generally this is the type itself with `'static` lifetimes
    /// (e.g. `Cow<'a, T> -> Cow<'static, T>`).
    type OwnedSelf: 'static;

    /// Holds when `r` is an owned form of `self`. An implementation that
    /// states nothing (one written outside the verified library) admits any
    /// result.
    open spec fn converts_to(self, r: Self::OwnedSelf) -> bool {
        true
    }

    /// Makes an owned (`'static`) version of `self`.
    fn into_static(self) -> (r: Self::OwnedSelf)
        ensures
            self.converts_to(r),
    ;
}

/// `std::path::PathBuf`, carried through unchanged.
#[verifier::external_type_specification]
#[verifier::external_body]
pub struct ExPathBuf(std::path::PathBuf);

/// `std::time::Instant`, carried through unchanged.
#[verifier::external_type_specification]
#[verifier::external_body]
pub struct ExInstant(std::time::Instant);

/// `std::time::SystemTime`, carried through unchanged.
#[verifier::external_type_specification]
#[verifier::external_body]
pub struct ExSystemTime(std::time::SystemTime);

/// Relies on `Cow::into_owned`: data that is already owned is handed out as it is.
pub assume_specification<'a, B: ?Sized + ToOwned>[ Cow::<'a, B>::into_owned ](
    c: Cow<'a, B>,
) -> (r: <B as ToOwned>::Owned)
    ensures
        c matches Cow::Owned(o) ==> r == o,
;

impl Ownit for bool {
    type OwnedSelf = bool;

    open spec fn converts_to(self, r: bool) -> bool {
        r == self
    }

    fn into_static(self) -> (r: bool) {
        self
    }
}

impl Ownit for char {
    type OwnedSelf = char;

    open spec fn converts_to(self, r: char) -> bool {
        r == self
    }

    fn into_static(self) -> (r: char) {
        self
    }
}

impl Ownit for u8 {
    type OwnedSelf = u8;

    open spec fn converts_to(self, r: u8) -> bool {
        r == self
    }

    fn into_static(self) -> (r: u8) {
        self
    }
}

impl Ownit for u16 {
    type OwnedSelf = u16;

    open spec fn converts_to(self, r: u16) -> bool {
        r == self
    }

    fn into_static(self) -> (r: u16) {
        self
    }
}

impl Ownit for u32 {
    type OwnedSelf = u32;

    open spec fn converts_to(self, r: u32) -> bool {
        r == self
    }

    fn into_static(self) -> (r: u32) {
        self
    }
}

impl Ownit for u64 {
    type OwnedSelf = u64;

    open spec fn converts_to(self, r: u64) -> bool {
        r == self
    }

    fn into_static(self) -> (r: u64) {
        self
    }
}

impl Ownit for u128 {
    type OwnedSelf = u128;

    open spec fn converts_to(self, r: u128) -> bool {
        r == self
    }

    fn into_static(self) -> (r: u128) {
        self
    }
}

impl Ownit for usize {
    type OwnedSelf = usize;

    open spec fn converts_to(self, r: usize) -> bool {
        r == self
    }

    fn into_static(self) -> (r: usize) {
        self
    }
}

impl Ownit for i8 {
    type OwnedSelf = i8;

    open spec fn converts_to(self, r: i8) -> bool {
        r == self
    }

    fn into_static(self) -> (r: i8) {
        self
    }
}

impl Ownit for i16 {
    type OwnedSelf = i16;

    open spec fn converts_to(self, r: i16) -> bool {
        r == self
    }

    fn into_static(self) -> (r: i16) {
        self
    }
}

impl Ownit for i32 {
    type OwnedSelf = i32;

    open spec fn converts_to(self, r: i32) -> bool {
        r == self
    }

    fn into_static(self) -> (r: i32) {
        self
    }
}

impl Ownit for i64 {
    type OwnedSelf = i64;

    open spec fn converts_to(self, r: i64) -> bool {
        r == self
    }

    fn into_static(self) -> (r: i64) {
        self
    }
}

impl Ownit for i128 {
    type OwnedSelf = i128;

    open spec fn converts_to(self, r: i128) -> bool {
        r == self
    }

    fn into_static(self) -> (r: i128) {
        self
    }
}

impl Ownit for isize {
    type OwnedSelf = isize;

    open spec fn converts_to(self, r: isize) -> bool {
        r == self
    }

    fn into_static(self) -> (r: isize) {
        self
    }
}

impl Ownit for String {
    type OwnedSelf = String;

    open spec fn converts_to(self, r: String) -> bool {
        r == self
    }

    fn into_static(self) -> (r: String) {
        self
    }
}

impl Ownit for std::path::PathBuf {
    type OwnedSelf = std::path::PathBuf;

    open spec fn converts_to(self, r: std::path::PathBuf) -> bool {
        r == self
    }

    fn into_static(self) -> (r: std::path::PathBuf) {
        self
    }
}

impl Ownit for std::time::Duration {
    type OwnedSelf = std::time::Duration;

    open spec fn converts_to(self, r: std::time::Duration) -> bool {
        r == self
    }

    fn into_static(self) -> (r: std::time::Duration) {
        self
    }
}

impl Ownit for std::time::Instant {
    type OwnedSelf = std::time::Instant;

    open spec fn converts_to(self, r: std::time::Instant) -> bool {
        r == self
    }

    fn into_static(self) -> (r: std::time::Instant) {
        self
    }
}

impl Ownit for std::time::SystemTime {
    type OwnedSelf = std::time::SystemTime;

    open spec fn converts_to(self, r: std::time::SystemTime) -> bool {
        r == self
    }

    fn into_static(self) -> (r: std::time::SystemTime) {
        self
    }
}

impl Ownit for std::sync::atomic::AtomicU8 {
    type OwnedSelf = std::sync::atomic::AtomicU8;

    open spec fn converts_to(self, r: std::sync::atomic::AtomicU8) -> bool {
        r == self
    }

    fn into_static(self) -> (r: std::sync::atomic::AtomicU8) {
        self
    }
}

impl Ownit for std::sync::atomic::AtomicU16 {
    type OwnedSelf = std::sync::atomic::AtomicU16;

    open spec fn converts_to(self, r: std::sync::atomic::AtomicU16) -> bool {
        r == self
    }

    fn into_static(self) -> (r: std::sync::atomic::AtomicU16) {
        self
    }
}

impl Ownit for std::sync::atomic::AtomicU32 {
    type OwnedSelf = std::sync::atomic::AtomicU32;

    open spec fn converts_to(self, r: std::sync::atomic::AtomicU32) -> bool {
        r == self
    }

    fn into_static(self) -> (r: std::sync::atomic::AtomicU32) {
        self
    }
}

impl Ownit for std::sync::atomic::AtomicU64 {
    type OwnedSelf = std::sync::atomic::AtomicU64;

    open spec fn converts_to(self, r: std::sync::atomic::AtomicU64) -> bool {
        r == self
    }

    fn into_static(self) -> (r: std::sync::atomic::AtomicU64) {
        self
    }
}

impl Ownit for std::sync::atomic::AtomicUsize {
    type OwnedSelf = std::sync::atomic::AtomicUsize;

    open spec fn converts_to(self, r: std::sync::atomic::AtomicUsize) -> bool {
        r == self
    }

    fn into_static(self) -> (r: std::sync::atomic::AtomicUsize) {
        self
    }
}

impl Ownit for std::sync::atomic::AtomicI8 {
    type OwnedSelf = std::sync::atomic::AtomicI8;

    open spec fn converts_to(self, r: std::sync::atomic::AtomicI8) -> bool {
        r == self
    }

    fn into_static(self) -> (r: std::sync::atomic::AtomicI8) {
        self
    }
}

impl Ownit for std::sync::atomic::AtomicI16 {
    type OwnedSelf = std::sync::atomic::AtomicI16;

    open spec fn converts_to(self, r: std::sync::atomic::AtomicI16) -> bool {
        r == self
    }

    fn into_static(self) -> (r: std::sync::atomic::AtomicI16) {
        self
    }
}

impl Ownit for std::sync::atomic::AtomicI32 {
    type OwnedSelf = std::sync::atomic::AtomicI32;

    open spec fn converts_to(self, r: std::sync::atomic::AtomicI32) -> bool {
        r == self
    }

    fn into_static(self) -> (r: std::sync::atomic::AtomicI32) {
        self
    }
}

impl Ownit for std::sync::atomic::AtomicI64 {
    type OwnedSelf = std::sync::atomic::AtomicI64;

    open spec fn converts_to(self, r: std::sync::atomic::AtomicI64) -> bool {
        r == self
    }

    fn into_static(self) -> (r: std::sync::atomic::AtomicI64) {
        self
    }
}

impl Ownit for std::sync::atomic::AtomicIsize {
    type OwnedSelf = std::sync::atomic::AtomicIsize;

    open spec fn converts_to(self, r: std::sync::atomic::AtomicIsize) -> bool {
        r == self
    }

    fn into_static(self) -> (r: std::sync::atomic::AtomicIsize) {
        self
    }
}

impl Ownit for () {
    type OwnedSelf = ();

    open spec fn converts_to(self, r: ()) -> bool {
        r == self
    }

    fn into_static(self) -> (r: ()) {
        ()
    }
}

impl<'a, T: ToOwned + ?Sized + 'static> Ownit for Cow<'a, T> {
    type OwnedSelf = Cow<'static, T>;

    /// The result is always materialized; owned data is moved over unchanged.
    open spec fn converts_to(self, r: Cow<'static, T>) -> bool {
        &&& r is Owned
        &&& (self matches Cow::Owned(o) ==> r == Cow::<'static, T>::Owned(o))
    }

    fn into_static(self) -> (r: Cow<'static, T>) {
        Cow::Owned(self.into_owned())
    }
}

impl<T: Ownit> Ownit for Vec<T> {
    type OwnedSelf = Vec<T::OwnedSelf>;

    /// Element-wise, order and length kept.
    open spec fn converts_to(self, r: Vec<T::OwnedSelf>) -> bool {
        &&& r@.len() == self@.len()
        &&& forall|i: int| 0 <= i < self@.len() ==> #[trigger] self@[i].converts_to(r@[i])
    }

    fn into_static(self) -> (r: Vec<T::OwnedSelf>) {
        let ghost src = self@;
        let mut out: Vec<T::OwnedSelf> = Vec::new();
        for t in it: self.into_iter()
            invariant
                it.seq() == src,
                out@.len() == it.index(),
                forall|i: int| 0 <= i < out@.len() ==> #[trigger] src[i].converts_to(out@[i]),
        {
            out.push(t.into_static());
        }
        out
    }
}

impl<T: Ownit> Ownit for Box<T> {
    type OwnedSelf = Box<T::OwnedSelf>;

    open spec fn converts_to(self, r: Box<T::OwnedSelf>) -> bool {
        (*self).converts_to(*r)
    }

    fn into_static(self) -> (r: Box<T::OwnedSelf>) {
        let inner = *self;
        Box::new(inner.into_static())
    }
}

impl<T: Ownit> Ownit for Option<T> {
    type OwnedSelf = Option<T::OwnedSelf>;

    /// Only a present value is converted.
    open spec fn converts_to(self, r: Option<T::OwnedSelf>) -> bool {
        match self {
            Some(t) => r matches Some(o) && t.converts_to(o),
            None => r is None,
        }
    }

    fn into_static(self) -> (r: Option<T::OwnedSelf>) {
        match self {
            Some(t) => Some(t.into_static()),
            None => None,
        }
    }
}

impl<T: Ownit, E: Ownit> Ownit for Result<T, E> {
    type OwnedSelf = Result<T::OwnedSelf, E::OwnedSelf>;

    /// The populated arm is converted and stays the populated arm.
    open spec fn converts_to(self, r: Result<T::OwnedSelf, E::OwnedSelf>) -> bool {
        match self {
            Ok(t) => r matches Ok(o) && t.converts_to(o),
            Err(e) => r matches Err(o) && e.converts_to(o),
        }
    }

    fn into_static(self) -> (r: Result<T::OwnedSelf, E::OwnedSelf>) {
        match self {
            Ok(t) => Ok(t.into_static()),
            Err(e) => Err(e.into_static()),
        }
    }
}

impl<T: Ownit + Clone> Ownit for Rc<T> {
    type OwnedSelf = Rc<T::OwnedSelf>;

    /// The payload, taken over by a sole owner or cloned otherwise, is converted.
    open spec fn converts_to(self, r: Rc<T::OwnedSelf>) -> bool {
        exists|p: T| (p == *self || cloned(*self, p)) && #[trigger] p.converts_to(*r)
    }

    fn into_static(self) -> (r: Rc<T::OwnedSelf>) {
        let inner = match Rc::try_unwrap(self) {
            Ok(t) => t,
            Err(rc) => (*rc).clone(),
        };
        let r = Rc::new(inner.into_static());
        assert(inner.converts_to(*r));
        r
    }
}

/// Relies on `<[T; N]>::map`: an array of the same size whose `i`-th element is
/// `f` applied to the `i`-th element.
pub assume_specification<Elem, const LEN: usize, Func, Out>[ <[Elem; LEN]>::map ](
    a: [Elem; LEN],
    f: Func,
) -> (r: [Out; LEN])
    where
        Func: FnMut(Elem) -> Out,
    requires
        forall|i: int| 0 <= i < LEN ==> call_requires(f, (#[trigger] a@[i],)),
    ensures
        forall|i: int| 0 <= i < LEN ==> call_ensures(f, (#[trigger] a@[i],), r@[i]),
;

impl<const N: usize, T: Ownit> Ownit for [T; N] {
    type OwnedSelf = [T::OwnedSelf; N];

    /// Element-wise, size kept.
    open spec fn converts_to(self, r: [T::OwnedSelf; N]) -> bool {
        forall|i: int| 0 <= i < N ==> #[trigger] self@[i].converts_to(r@[i])
    }

    fn into_static(self) -> (r: [T::OwnedSelf; N]) {
        self.map(|t: T| -> (o: T::OwnedSelf)
            ensures
                t.converts_to(o),
            { t.into_static() })
    }
}

} // verus!
