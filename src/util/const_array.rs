use vstd::prelude::*;

verus! {

/// A value that flattens into a run of elements of type `T`: either one
/// element, an array of them, or the concatenation of two such values.
pub trait PreArray<T>: Sized {
    /// The elements this value contributes, in order.
    spec fn flat(&self) -> Seq<T>;

    /// Moves the elements into a vector, in order.
    fn into_elements(self) -> (v: Vec<T>)
        ensures
            v@ == self.flat(),
    ;
}

impl<T> PreArray<T> for T {
    open spec fn flat(&self) -> Seq<T> {
        seq![*self]
    }

    fn into_elements(self) -> (v: Vec<T>) {
        let mut v: Vec<T> = Vec::new();
        v.push(self);
        v
    }
}

impl<T, const M: usize> PreArray<T> for [T; M] {
    open spec fn flat(&self) -> Seq<T> {
        self@
    }

    fn into_elements(self) -> (v: Vec<T>) {
        array_into_vec(self)
    }
}

/// Concatenation of two runs of elements, first then second.
pub struct ConcatPreArray<T, PA1: PreArray<T>, PA2: PreArray<T>> {
    pub first: PA1,
    pub second: PA2,
    pub marker: core::marker::PhantomData<T>,
}

impl<T, PA1: PreArray<T>, PA2: PreArray<T>> ConcatPreArray<T, PA1, PA2> {
    /// Joins two runs of elements.
    pub fn new(first: PA1, second: PA2) -> (r: Self)
        ensures
            r.first == first,
            r.second == second,
    {
        ConcatPreArray { first, second, marker: core::marker::PhantomData }
    }
}

impl<T, PA1: PreArray<T>, PA2: PreArray<T>> PreArray<T> for ConcatPreArray<T, PA1, PA2> {
    open spec fn flat(&self) -> Seq<T> {
        self.first.flat() + self.second.flat()
    }

    fn into_elements(self) -> (v: Vec<T>) {
        let mut v = self.first.into_elements();
        let mut w = self.second.into_elements();
        v.append(&mut w);
        v
    }
}

/// Relies on `From<[T; N]> for Vec<T>`, which moves the array's items into a
/// new vector in order.
#[verifier::external_body]
fn array_into_vec<T, const N: usize>(a: [T; N]) -> (v: Vec<T>)
    ensures
        v@ == a@,
{
    Vec::from(a)
}

/// Relies on `TryFrom<Vec<T>> for [T; N]`, which hands back the vector's
/// contents as an array exactly when its length is `N`.
#[verifier::external_body]
fn vec_into_array<T, const N: usize>(v: Vec<T>) -> (r: Option<[T; N]>)
    ensures
        r is Some <==> v@.len() == N,
        r matches Some(a) ==> a@ == v@,
{
    <[T; N]>::try_from(v).ok()
}

/// The elements a builder holds after starting from `start` and appending
/// `parts`, one part per call of `push`, first part first.
pub open spec fn after_pushes<T>(start: Seq<T>, parts: Seq<Seq<T>>) -> Seq<T>
    decreases parts.len(),
{
    if parts.len() == 0 {
        start
    } else {
        after_pushes(start + parts.first(), parts.drop_first())
    }
}

/// Appending parts one after another holds their concatenation, in order.
pub proof fn lemma_after_pushes<T>(start: Seq<T>, parts: Seq<Seq<T>>)
    ensures
        after_pushes(start, parts) == start + parts.flatten(),
    decreases parts.len(),
{
    if parts.len() == 0 {
        assert(start + parts.flatten() =~= start);
    } else {
        lemma_after_pushes(start + parts.first(), parts.drop_first());
        assert(start + parts.first() + parts.drop_first().flatten() =~= start + parts.flatten());
    }
}

/// One part per element of `xs`, holding that element alone.
pub open spec fn singles<T>(xs: Seq<T>) -> Seq<Seq<T>> {
    xs.map_values(|x: T| seq![x])
}

proof fn lemma_singles_flatten<T>(xs: Seq<T>)
    ensures
        singles(xs).flatten() == xs,
    decreases xs.len(),
{
    if xs.len() > 0 {
        assert(singles(xs).drop_first() =~= singles(xs.drop_first()));
        lemma_singles_flatten(xs.drop_first());
        assert(singles(xs).flatten() =~= xs);
    } else {
        assert(singles(xs).flatten() =~= xs);
    }
}

/// Appending the elements `xs` one call each to an empty builder holds
/// exactly `xs`, in the order appended. So `build` for `n` elements is
/// admitted exactly when there were `n` calls, yields `xs` then, and is
/// refused when there were fewer or more.
pub proof fn lemma_exact_appends_build<T>(xs: Seq<T>, n: nat)
    ensures
        after_pushes(Seq::empty(), singles(xs)) == xs,
        after_pushes(Seq::empty(), singles(xs)).len() == n <==> xs.len() == n,
{
    lemma_after_pushes(Seq::<T>::empty(), singles(xs));
    lemma_singles_flatten(xs);
    assert(Seq::<T>::empty() + xs =~= xs);
}

/// Accumulates elements for an array of exactly `N` elements.
pub struct ConstArrayBuilder<T, const N: usize> {
    inner: Vec<T>,
}

impl<T, const N: usize> View for ConstArrayBuilder<T, N> {
    type V = Seq<T>;

    closed spec fn view(&self) -> Seq<T> {
        self.inner@
    }
}

impl<T, const N: usize> ConstArrayBuilder<T, N> {
    /// An empty builder for an array of `N` elements.
    pub fn new() -> (r: Self)
        ensures
            r@ == Seq::<T>::empty(),
    {
        ConstArrayBuilder { inner: Vec::new() }
    }

    /// Appends one element, an array, or a concatenation of them, after the
    /// elements already held.
    pub fn push<PA: PreArray<T>>(self, elements: PA) -> (r: Self)
        ensures
            r@ == self@ + elements.flat(),
    {
        let mut inner = self.inner;
        let mut more = elements.into_elements();
        inner.append(&mut more);
        ConstArrayBuilder { inner }
    }

    /// The number of elements accumulated so far.
    pub fn len(&self) -> (r: usize)
        ensures
            r == self@.len(),
    {
        self.inner.len()
    }

    /// The array of the accumulated elements, in the order they were
    /// appended. Building with any other number of elements than `N` is
    /// refused before the program runs.
    pub fn build(self) -> (r: [T; N])
        requires
            self@.len() == N,
        ensures
            r@ == self@,
    {
        let a = vec_into_array(self.inner);
        a.unwrap()
    }
}

} // verus!
