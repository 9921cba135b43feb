use vstd::prelude::*;
use vstd::std_specs::cmp::{PartialEqSpec, PartialOrdSpec};

verus! {

/// Owns exactly one value of type `T`.
///
/// The slot is an `Option` whose empty arm is reachable only inside
/// `inplace` and `inplace_`, between moving the value out and moving its
/// replacement back in. Every operation that returns normally leaves the cell
/// occupied, and every operation but `new` requires it to be. Should the
/// transforming function unwind instead of returning, the slot stays empty:
/// the cell is then poisoned. Every later access to its value panics instead
/// of reading a value that is gone; comparisons and hashing treat it as an
/// empty cell, and `Debug` formatting of it fails.
#[derive(Copy, Eq, Ord)]
pub struct Inplace<T> {
    slot: Option<T>,
}

impl<T> Inplace<T> {
    /// The cell holds a value: it is not poisoned.
    pub closed spec fn occupied(self) -> bool {
        self.slot is Some
    }

    /// The value held by the cell.
    pub closed spec fn view(self) -> T {
        self.slot->0
    }

    /// The cell that `new(v)` builds.
    pub closed spec fn spec_new(v: T) -> Inplace<T> {
        Inplace { slot: Some(v) }
    }

    /// Moves `v` into a new cell.
    pub fn new(v: T) -> (r: Inplace<T>)
        ensures
            r == Self::spec_new(v),
            r.occupied(),
            r@ == v,
    {
        Inplace { slot: Some(v) }
    }

    /// Consumes the cell and hands its value to the caller.
    pub fn deref_move(self) -> (r: T)
        requires
            self.occupied(),
        ensures
            r == self@,
    {
        self.slot.unwrap()
    }

    /// Shared access to the value.
    pub fn borrow(&self) -> (r: &T)
        requires
            self.occupied(),
        ensures
            *r == self@,
    {
        self.slot.as_ref().unwrap()
    }

    /// Exclusive access to the value; what is written through the result is
    /// what the cell holds afterwards.
    pub fn borrow_mut(&mut self) -> (r: &mut T)
        requires
            old(self).occupied(),
        ensures
            *r == old(self)@,
            final(self).occupied(),
            final(self)@ == *final(r),
    {
        self.slot.as_mut().unwrap()
    }

    /// Moves the value out, hands it to `f`, and moves the second component
    /// of what `f` returns back in; the first component is returned.
    pub fn inplace<R>(&mut self, f: impl FnOnce(T) -> (R, T)) -> (r: R)
        requires
            old(self).occupied(),
            f.requires((old(self)@,)),
        ensures
            final(self).occupied(),
            f.ensures((old(self)@,), (r, final(self)@)),
    {
        let v = self.slot.take().unwrap();
        let (r, w) = f(v);
        self.slot = Some(w);
        r
    }

    /// Moves the value out, hands it to `f`, and moves what `f` returns back
    /// in.
    pub fn inplace_(&mut self, f: impl FnOnce(T) -> T)
        requires
            old(self).occupied(),
            f.requires((old(self)@,)),
        ensures
            final(self).occupied(),
            f.ensures((old(self)@,), final(self)@),
    {
        let v = self.slot.take().unwrap();
        let w = f(v);
        self.slot = Some(w);
    }
}

/// Round trip: the value taken out of a fresh cell is the value that was
/// moved in.
pub proof fn lemma_round_trip<T>(v: T)
    ensures
        Inplace::spec_new(v).occupied(),
        Inplace::spec_new(v)@ == v,
{
}

/// A fresh cell transformed by `inplace_` with a function `f` that computes
/// `g` holds `g(v)`, which is what `deref_move` then hands out.
pub proof fn lemma_transform_void_applies<T, F: FnOnce(T) -> T>(
    v: T,
    f: F,
    g: spec_fn(T) -> T,
    after: Inplace<T>,
)
    requires
        forall|x: T, y: T| #[trigger] f.ensures((x,), y) ==> y == g(x),
        f.ensures((Inplace::spec_new(v)@,), after@),
    ensures
        after@ == g(v),
{
    lemma_round_trip(v);
}

/// A fresh cell transformed by `inplace` with a function `f` that computes
/// `g` returns the first component of `g(v)` and holds the second.
pub proof fn lemma_transform_applies<T, R, F: FnOnce(T) -> (R, T)>(
    v: T,
    f: F,
    g: spec_fn(T) -> (R, T),
    r: R,
    after: Inplace<T>,
)
    requires
        forall|x: T, y: (R, T)| #[trigger] f.ensures((x,), y) ==> y == g(x),
        f.ensures((Inplace::spec_new(v)@,), (r, after@)),
    ensures
        r == g(v).0,
        after@ == g(v).1,
{
    lemma_round_trip(v);
}

/// Transforming by `f1` and then by `f2` leaves the cell holding what one
/// transform by a function `h` computing their composition leaves in it.
pub proof fn lemma_sequencing<T, F1: FnOnce(T) -> T, F2: FnOnce(T) -> T, H: FnOnce(T) -> T>(
    before: Inplace<T>,
    f1: F1,
    g1: spec_fn(T) -> T,
    f2: F2,
    g2: spec_fn(T) -> T,
    h: H,
    mid: Inplace<T>,
    after: Inplace<T>,
    direct: Inplace<T>,
)
    requires
        forall|x: T, y: T| #[trigger] f1.ensures((x,), y) ==> y == g1(x),
        forall|x: T, y: T| #[trigger] f2.ensures((x,), y) ==> y == g2(x),
        forall|x: T, y: T| #[trigger] h.ensures((x,), y) ==> y == g2(g1(x)),
        f1.ensures((before@,), mid@),
        f2.ensures((mid@,), after@),
        h.ensures((before@,), direct@),
    ensures
        after@ == direct@,
{
}

/// Comparing two occupied cells gives what comparing their values gives.
pub proof fn lemma_comparison_delegates<T: PartialOrd>(a: Inplace<T>, b: Inplace<T>)
    requires
        a.occupied(),
        b.occupied(),
    ensures
        <Inplace<T> as PartialEqSpec>::obeys_eq_spec() == <T as PartialEqSpec>::obeys_eq_spec(),
        a.eq_spec(&b) == a@.eq_spec(&b@),
        <Inplace<T> as PartialOrdSpec>::obeys_partial_cmp_spec()
            == <T as PartialOrdSpec>::obeys_partial_cmp_spec(),
        a.partial_cmp_spec(&b) == a@.partial_cmp_spec(&b@),
{
}

impl<T> From<T> for Inplace<T> {
    /// Same as `Inplace::new`.
    fn from(v: T) -> (r: Inplace<T>)
        ensures
            r.occupied(),
            r@ == v,
    {
        Inplace::new(v)
    }
}

impl<T> vstd::std_specs::convert::FromSpecImpl<T> for Inplace<T> {
    open spec fn obeys_from_spec() -> bool {
        true
    }

    open spec fn from_spec(v: T) -> Inplace<T> {
        Inplace::spec_new(v)
    }
}

impl<T: PartialEq> PartialEq for Inplace<T> {
    /// Compares the held values.
    fn eq(&self, other: &Inplace<T>) -> (r: bool)
        ensures
            <T as PartialEqSpec>::obeys_eq_spec() && self.occupied() && other.occupied() ==> r
                == self@.eq_spec(&other@),
    {
        self.slot.eq(&other.slot)
    }
}

impl<T: PartialEq> vstd::std_specs::cmp::PartialEqSpecImpl for Inplace<T> {
    open spec fn obeys_eq_spec() -> bool {
        <T as PartialEqSpec>::obeys_eq_spec()
    }

    open spec fn eq_spec(&self, other: &Inplace<T>) -> bool {
        if self.occupied() && other.occupied() {
            self@.eq_spec(&other@)
        } else {
            self.occupied() == other.occupied()
        }
    }
}

impl<T: PartialOrd> PartialOrd for Inplace<T> {
    /// Compares the held values.
    fn partial_cmp(&self, other: &Inplace<T>) -> (r: Option<core::cmp::Ordering>)
        ensures
            <T as PartialOrdSpec>::obeys_partial_cmp_spec() && self.occupied() && other.occupied()
                ==> r == self@.partial_cmp_spec(&other@),
    {
        self.slot.partial_cmp(&other.slot)
    }
}

impl<T: PartialOrd> vstd::std_specs::cmp::PartialOrdSpecImpl for Inplace<T> {
    open spec fn obeys_partial_cmp_spec() -> bool {
        <T as PartialOrdSpec>::obeys_partial_cmp_spec()
    }

    open spec fn partial_cmp_spec(&self, other: &Inplace<T>) -> Option<core::cmp::Ordering> {
        if self.occupied() && other.occupied() {
            self@.partial_cmp_spec(&other@)
        } else if self.occupied() {
            Some(core::cmp::Ordering::Greater)
        } else if other.occupied() {
            Some(core::cmp::Ordering::Less)
        } else {
            Some(core::cmp::Ordering::Equal)
        }
    }
}

impl<T: Default> Default for Inplace<T> {
    /// A cell holding `T`'s default value.
    fn default() -> (r: Inplace<T>)
        ensures
            r.occupied(),
            call_ensures(T::default, (), r@),
    {
        Inplace::new(T::default())
    }
}

/// Relies on `Hash::hash` of the held type to feed `v` to `state`; nothing
/// is stated of what it feeds.
#[verifier::external_body]
fn hash_value<V: core::hash::Hash, H: core::hash::Hasher>(v: &V, state: &mut H) {
    v.hash(state)
}

impl<T: core::hash::Hash> core::hash::Hash for Inplace<T> {
    /// Feeds the held value, and nothing else, to `state`.
    fn hash<H: core::hash::Hasher>(&self, state: &mut H) {
        match &self.slot {
            Some(v) => hash_value(v, state),
            None => {},
        }
    }
}

impl<T: Clone> Clone for Inplace<T> {
    /// A new cell holding a clone of the value.
    fn clone(&self) -> (r: Inplace<T>)
        ensures
            r.occupied() == self.occupied(),
            self.occupied() ==> cloned::<T>(self@, r@),
    {
        Inplace { slot: self.slot.clone() }
    }
}

#[verifier::external_type_specification]
#[verifier::external_body]
pub struct ExFormatter<'a>(std::fmt::Formatter<'a>);

#[verifier::external_type_specification]
pub struct ExFmtError(std::fmt::Error);

/// Relies on `Debug::fmt` of the held type to write `v` to `f`.
#[verifier::external_body]
fn fmt_debug<V: std::fmt::Debug>(v: &V, f: &mut std::fmt::Formatter<'_>) -> std::fmt::Result {
    v.fmt(f)
}

impl<T: std::fmt::Debug> std::fmt::Debug for Inplace<T> {
    /// Formats the held value as the held type does.
    fn fmt(&self, f: &mut std::fmt::Formatter<'_>) -> std::fmt::Result {
        match &self.slot {
            Some(v) => fmt_debug(v, f),
            None => Err(std::fmt::Error),
        }
    }
}

impl<T: std::fmt::Display> Inplace<T> {
    /// The held value, written as its `Display` impl writes it.
    pub fn to_string(&self) -> (r: String)
        requires
            self.occupied(),
        ensures
            vstd::string::to_string_from_display_ensures::<T>(&self@, r),
    {
        <T as std::string::ToString>::to_string(self.borrow())
    }
}

} // verus!
