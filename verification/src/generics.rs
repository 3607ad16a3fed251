use vstd::prelude::*;
use vstd::std_specs::cmp::PartialOrdSpec;
use vstd::std_specs::cmp::PartialOrdIs;

verus! {

/// A point whose two coordinates share one type.
pub struct pointSingleType<T> {
    pub x: T,
    pub y: T,
}

/// A point whose two coordinates may differ in type.
pub struct pointMultiType<T, U> {
    pub x: T,
    pub y: U,
}

impl<T> pointSingleType<T> {
    /// The first coordinate.
    pub fn x(&self) -> (r: &T)
        ensures
            *r == self.x,
    {
        &self.x
    }

    /// The second coordinate.
    pub fn y(&self) -> (r: &T)
        ensures
            *r == self.y,
    {
        &self.y
    }

    /// The point with the coordinates `x` and `y`.
    pub fn new(x: T, y: T) -> (p: Self)
        ensures
            p.x == x,
            p.y == y,
    {
        Self { x, y }
    }
}

impl<T: PartialOrd> pointSingleType<T> {
    /// Whether the first coordinate is the largest: whether it is greater
    /// than the second or equal to it.
    pub fn x_is_largest(&self) -> (r: bool)
        ensures
            T::obeys_partial_cmp_spec() ==> r == self.x.is_ge(&self.y),
    {
        self.x >= self.y
    }
}

/// The greatest of a non-empty list of integers.
pub fn largest_i32(list: &[i32]) -> (r: &i32)
    requires
        list@.len() > 0,
    ensures
        forall|j: int| 0 <= j < list@.len() ==> #[trigger] list@[j] <= *r,
        exists|j: int| 0 <= j < list@.len() && #[trigger] list@[j] == *r,
{
    let mut largest = &list[0];
    let mut i: usize = 1;
    while i < list.len()
        invariant
            1 <= i <= list@.len(),
            forall|j: int| 0 <= j < i ==> #[trigger] list@[j] <= *largest,
            exists|j: int| 0 <= j < i && #[trigger] list@[j] == *largest,
        decreases list@.len() - i,
    {
        let item = &list[i];
        if *item > *largest {
            largest = item;
        }
        i += 1;
    }
    largest
}

/// The greatest of a non-empty list of characters, by code point.
pub fn largest_char(list: &[char]) -> (r: &char)
    requires
        list@.len() > 0,
    ensures
        forall|j: int| 0 <= j < list@.len() ==> #[trigger] list@[j] <= *r,
        exists|j: int| 0 <= j < list@.len() && #[trigger] list@[j] == *r,
{
    let mut largest = &list[0];
    let mut i: usize = 1;
    while i < list.len()
        invariant
            1 <= i <= list@.len(),
            forall|j: int| 0 <= j < i ==> #[trigger] list@[j] <= *largest,
            exists|j: int| 0 <= j < i && #[trigger] list@[j] == *largest,
        decreases list@.len() - i,
    {
        let item = &list[i];
        if *item > *largest {
            largest = item;
        }
        i += 1;
    }
    largest
}

/// What a left-to-right scan of `s` ends up holding when it starts from the
/// first item and replaces its candidate only by an item that compares
/// strictly greater.
pub open spec fn scan_largest<T: PartialOrd>(s: Seq<T>) -> T
    decreases s.len(),
{
    if s.len() <= 1 {
        s[0]
    } else {
        let held = scan_largest(s.drop_last());
        if s.last().is_gt(&held) {
            s.last()
        } else {
            held
        }
    }
}

/// The first `n` items of `s`.
pub open spec fn leading<T>(s: Seq<T>, n: usize) -> Seq<T> {
    s.take(n as int)
}

/// The greatest item of a non-empty list under the type's own order: the
/// scan's result for a type whose comparison follows its specification, and
/// one of the list's items in any case.
pub fn largest<T: PartialOrd>(list: &[T]) -> (r: &T)
    requires
        list@.len() > 0,
    ensures
        list@.contains(*r),
        T::obeys_partial_cmp_spec() ==> *r == scan_largest(list@),
{
    let mut largest = &list[0];
    let mut i: usize = 1;
    assert(leading(list@, 1).len() == 1);
    assert(leading(list@, 1)[0] == list@[0]);
    while i < list.len()
        invariant
            1 <= i <= list@.len(),
            list@.contains(*largest),
            T::obeys_partial_cmp_spec() ==> *largest == scan_largest(leading(list@, i)),
        decreases list@.len() - i,
    {
        let item = &list[i];
        let ghost before = leading(list@, i);
        let greater = *item > *largest;
        i += 1;
        proof {
            assert(leading(list@, i).drop_last() =~= before);
            assert(leading(list@, i).last() == *item);
        }
        if greater {
            largest = item;
        }
    }
    assert(leading(list@, i) =~= list@);
    largest
}

} // verus!
