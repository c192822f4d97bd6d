//! Vectors whose rows are labelled.
use vstd::prelude::*;
use vstd::laws_eq::obeys_concrete_eq;
use vstd::std_specs::cmp::PartialEqSpec;
use vstd::std_specs::ops::AddSpec;
use core::ops::{Add, AddAssign};
use crate::impacts::ImpactCategory;
use crate::text::same_text;

verus! {

/// Row labels: values that can be told apart, each the same label as
/// itself.
pub trait RowLabel: Sized {
    /// `self` and `other` label the same row.
    spec fn same_label(self, other: Self) -> bool;

    /// A label is the same label as itself.
    proof fn same_label_reflexive(x: Self)
        ensures
            x.same_label(x),
    ;

    /// Whether `self` and `other` label the same row.
    fn is_same_label(&self, other: &Self) -> (r: bool)
        ensures
            r == self.same_label(*other),
    ;
}

impl RowLabel for String {
    open spec fn same_label(self, other: Self) -> bool {
        self@ == other@
    }

    proof fn same_label_reflexive(x: Self) {
    }

    fn is_same_label(&self, other: &Self) -> (r: bool) {
        *self == *other
    }
}

impl<'a> RowLabel for &'a str {
    open spec fn same_label(self, other: Self) -> bool {
        self@ == other@
    }

    proof fn same_label_reflexive(x: Self) {
    }

    fn is_same_label(&self, other: &Self) -> (r: bool) {
        same_text(*self, *other)
    }
}

impl RowLabel for ImpactCategory {
    open spec fn same_label(self, other: Self) -> bool {
        self == other
    }

    proof fn same_label_reflexive(x: Self) {
    }

    fn is_same_label(&self, other: &Self) -> (r: bool) {
        *self == *other
    }
}

/// A vector whose rows carry labels: row `i` is labelled `mapping[i]`
/// and holds `values[i]`.  The labels are kept in a `Vec`, which contracts
/// can speak of for any label type; that no label occurs twice is the
/// vector's well-formedness.
#[derive(Debug, Clone)]
pub struct MappedVector<T, V> {
    pub mapping: Vec<T>,
    pub values: Vec<V>,
}

/// No two rows carry the same label: labels and rows correspond one to one.
pub open spec fn distinct_labels<T: RowLabel>(labels: Seq<T>) -> bool {
    forall|i: int, j: int|
        0 <= i < labels.len() && 0 <= j < labels.len() && i != j ==> !(#[trigger] labels[i]).same_label(
            #[trigger] labels[j],
        )
}

impl<T: RowLabel, V> MappedVector<T, V> {
    /// The vector's labels are distinct.
    pub open spec fn well_formed(&self) -> bool {
        distinct_labels(self.mapping@)
    }
}

/// Some row carries `id`.
pub open spec fn has_label<T: RowLabel>(labels: Seq<T>, id: T) -> bool {
    exists|i: int| 0 <= i < labels.len() && (#[trigger] labels[i]).same_label(id)
}

/// `i` is the first row labelled `id`.
pub open spec fn is_first_position<T: RowLabel>(labels: Seq<T>, id: T, i: int) -> bool {
    &&& 0 <= i < labels.len()
    &&& labels[i].same_label(id)
    &&& forall|j: int| 0 <= j < i ==> !(#[trigger] labels[j]).same_label(id)
}

/// The row of `id`, if any row carries it.
pub open spec fn position_of<T: RowLabel>(labels: Seq<T>, id: T) -> Option<int> {
    if has_label(labels, id) {
        Some(choose|i: int| is_first_position(labels, id, i))
    } else {
        None
    }
}

/// The value of the row labelled `label`, if any row carries it.
pub open spec fn value_at<T: RowLabel, V>(labels: Seq<T>, values: Seq<V>, label: T) -> Option<V> {
    match position_of(labels, label) {
        Some(i) => Some(values[i]),
        None => None,
    }
}

/// The values once the row labelled `label` holds `value`; unchanged when
/// no row carries `label`.
pub open spec fn values_after_set<T: RowLabel, V>(labels: Seq<T>, values: Seq<V>, label: T, value: V) -> Seq<V> {
    match position_of(labels, label) {
        Some(i) => values.update(i, value),
        None => values,
    }
}

impl<T, V> MappedVector<T, V> {
    /// A vector with no rows.
    pub fn empty() -> (r: Self)
        ensures
            r.mapping@ == Seq::<T>::empty(),
            r.values@ == Seq::<V>::empty(),
    {
        MappedVector { mapping: Vec::new(), values: Vec::new() }
    }

    /// A vector made of the given labels and values.
    pub fn new(mapping: Vec<T>, values: Vec<V>) -> (r: Self)
        ensures
            r.mapping == mapping,
            r.values == values,
    {
        MappedVector { mapping, values }
    }

    /// Number of labelled rows.
    pub fn nrows(&self) -> (r: usize)
        ensures
            r == self.mapping@.len(),
    {
        self.mapping.len()
    }

    /// The label of row `index`, if that row exists.
    pub fn irow(&self, index: &usize) -> (r: Option<&T>)
        ensures
            *index < self.mapping@.len() ==> r == Some(&self.mapping@[*index as int]),
            *index >= self.mapping@.len() ==> r is None,
    {
        if *index < self.mapping.len() {
            Some(&self.mapping[*index])
        } else {
            None
        }
    }
}

proof fn lemma_first_position_unique<T: RowLabel>(labels: Seq<T>, id: T, i: int, k: int)
    requires
        is_first_position(labels, id, i),
        is_first_position(labels, id, k),
    ensures
        i == k,
{
}

proof fn lemma_position_of<T: RowLabel>(labels: Seq<T>, id: T, i: int)
    requires
        is_first_position(labels, id, i),
    ensures
        position_of(labels, id) == Some(i),
{
    assert(has_label(labels, id));
    let k = choose|k: int| is_first_position(labels, id, k);
    lemma_first_position_unique(labels, id, i, k);
}

impl<T: RowLabel, V> MappedVector<T, V> {
    /// Index of the row labelled `id`, or `None` when no row carries it.
    pub fn row(&self, id: &T) -> (r: Option<usize>)
        requires
            self.well_formed(),
        ensures
            r matches Some(i) ==> position_of(self.mapping@, *id) == Some(i as int),
            r is None <==> position_of(self.mapping@, *id) is None,
    {
        let n = self.mapping.len();
        let mut i: usize = 0;
        while i < n
            invariant
                n == self.mapping@.len(),
                i <= n,
                forall|j: int| 0 <= j < i ==> !(#[trigger] self.mapping@[j]).same_label(*id),
            decreases n - i,
        {
            if self.mapping[i].is_same_label(id) {
                proof {
                    lemma_position_of(self.mapping@, *id, i as int);
                }
                return Some(i);
            }
            i = i + 1;
        }
        None
    }

    /// Whether some row is labelled `id`.
    pub fn contains(&self, id: &T) -> (r: bool)
        requires
            self.well_formed(),
        ensures
            r == has_label(self.mapping@, *id),
    {
        proof {
            lemma_position_of_is_first(self.mapping@, *id);
        }
        self.row(id).is_some()
    }
}

impl<T: RowLabel, V: Copy> MappedVector<T, V> {
    /// Overwrites the value of the row labelled `label` and returns the
    /// value it held; returns `None`, and changes nothing, when no row
    /// carries `label`.
    pub fn set(&mut self, label: T, value: V) -> (r: Option<V>)
        requires
            old(self).well_formed(),
            position_of(old(self).mapping@, label) matches Some(i) ==> i < old(self).values@.len(),
        ensures
            final(self).mapping == old(self).mapping,
            final(self).well_formed(),
            final(self).values@ == values_after_set(old(self).mapping@, old(self).values@, label, value),
            r == value_at(old(self).mapping@, old(self).values@, label),
    {
        match self.row(&label) {
            Some(index) => {
                let res = self.values[index];
                self.values.set(index, value);
                Some(res)
            },
            None => None,
        }
    }
}

impl<T: RowLabel, V: Copy + Add<Output = V>> MappedVector<T, V> {
    /// Adds `value` to the value of the row labelled `label` and returns the
    /// value the row held before; returns `None`, and changes nothing, when
    /// no row carries `label`.
    pub fn add_to(&mut self, label: T, value: V) -> (r: Option<V>)
        requires
            old(self).well_formed(),
            position_of(old(self).mapping@, label) matches Some(i) ==> {
                &&& i < old(self).values@.len()
                &&& old(self).values@[i].add_req(value)
            },
        ensures
            final(self).mapping == old(self).mapping,
            final(self).well_formed(),
            final(self).values@.len() == old(self).values@.len(),
            match position_of(old(self).mapping@, label) {
                Some(i) => {
                    &&& r == Some(old(self).values@[i])
                    &&& forall|j: int|
                        0 <= j < old(self).values@.len() && j != i ==> final(self).values@[j]
                            == old(self).values@[j]
                    &&& V::obeys_add_spec() ==> final(self).values@[i]
                        == old(self).values@[i].add_spec(value)
                },
                None => {
                    &&& r is None
                    &&& final(self).values@ == old(self).values@
                },
            },
    {
        match self.row(&label) {
            Some(index) => {
                let res = self.values[index];
                self.values.set(index, res + value);
                Some(res)
            },
            None => None,
        }
    }
}

/// Two sequences have the same length and pairwise `==`-equal rows.
pub open spec fn rows_eq<A: PartialEq>(a: Seq<A>, b: Seq<A>) -> bool {
    &&& a.len() == b.len()
    &&& forall|i: int| 0 <= i < a.len() ==> #[trigger] a[i].eq_spec(&b[i])
}

/// Length of the row-wise sum of two value sequences: the shorter one.
pub open spec fn sum_len<V>(a: Seq<V>, b: Seq<V>) -> nat {
    if a.len() <= b.len() {
        a.len()
    } else {
        b.len()
    }
}

/// Every row of the shorter sequence can be added to its counterpart.
pub open spec fn can_add_rows<V: Add<Output = V>>(a: Seq<V>, b: Seq<V>) -> bool {
    forall|i: int| 0 <= i < sum_len(a, b) ==> #[trigger] a[i].add_req(b[i])
}

/// The row-wise sum of two value sequences, truncated to the shorter one.
pub open spec fn sum_rows<V: Add<Output = V>>(a: Seq<V>, b: Seq<V>) -> Seq<V> {
    Seq::new(sum_len(a, b), |i: int| a[i].add_spec(b[i]))
}

/// `a` with `b[i]` added to each row `i` that both sequences have.
pub open spec fn add_into_rows<V: Add<Output = V>>(a: Seq<V>, b: Seq<V>) -> Seq<V> {
    Seq::new(a.len(), |i: int| if i < sum_len(a, b) { a[i].add_spec(b[i]) } else { a[i] })
}

/// Row-wise sum of `a` and `b` over the rows that both have.
fn add_values<V: Copy + Add<Output = V>>(a: &Vec<V>, b: &Vec<V>) -> (r: Vec<V>)
    requires
        can_add_rows(a@, b@),
    ensures
        r@.len() == sum_len(a@, b@),
        V::obeys_add_spec() ==> r@ == sum_rows(a@, b@),
{
    let n = if a.len() <= b.len() {
        a.len()
    } else {
        b.len()
    };
    let mut r: Vec<V> = Vec::new();
    let mut i: usize = 0;
    while i < n
        invariant
            n == sum_len(a@, b@),
            n <= a@.len(),
            n <= b@.len(),
            i <= n,
            r@.len() == i,
            can_add_rows(a@, b@),
            V::obeys_add_spec() ==> forall|j: int| 0 <= j < i ==> r@[j] == a@[j].add_spec(b@[j]),
        decreases n - i,
    {
        assert(a@[i as int].add_req(b@[i as int]));
        let s = a[i] + b[i];
        r.push(s);
        i = i + 1;
    }
    r
}

impl<T, V: Copy + Add<Output = V>> Add for MappedVector<T, V> {
    type Output = Self;

    /// Row-wise sum; the result keeps the labels of `self`.
    fn add(self, other: Self) -> (r: Self)
        ensures
            r.mapping == self.mapping,
            r.values@.len() == sum_len(self.values@, other.values@),
            V::obeys_add_spec() ==> r.values@ == sum_rows(self.values@, other.values@),
    {
        let values = add_values(&self.values, &other.values);
        MappedVector { mapping: self.mapping, values }
    }
}

impl<T, V: Copy + Add<Output = V>> vstd::std_specs::ops::AddSpecImpl for MappedVector<T, V> {
    /// A `Vec` cannot be written in a spec function, so the result is
    /// described by the `ensures` of `add` instead.
    open spec fn obeys_add_spec() -> bool {
        false
    }

    open spec fn add_req(self, rhs: Self) -> bool {
        can_add_rows(self.values@, rhs.values@)
    }

    open spec fn add_spec(self, rhs: Self) -> Self {
        MappedVector { mapping: self.mapping, values: self.values }
    }
}

/// Adds `b[i]` to `a[i]` for every row that both have.
fn add_values_in_place<V: Copy + Add<Output = V>>(a: &mut Vec<V>, b: &Vec<V>)
    requires
        can_add_rows(old(a)@, b@),
    ensures
        final(a)@.len() == old(a)@.len(),
        forall|j: int|
            sum_len(old(a)@, b@) <= j < old(a)@.len() ==> final(a)@[j] == old(a)@[j],
        V::obeys_add_spec() ==> forall|j: int|
            0 <= j < sum_len(old(a)@, b@) ==> final(a)@[j] == old(a)@[j].add_spec(b@[j]),
{
    let n = if a.len() <= b.len() {
        a.len()
    } else {
        b.len()
    };
    let mut i: usize = 0;
    while i < n
        invariant
            n == sum_len(old(a)@, b@),
            n <= old(a)@.len(),
            n <= b@.len(),
            i <= n,
            a@.len() == old(a)@.len(),
            can_add_rows(old(a)@, b@),
            forall|j: int| i <= j < old(a)@.len() ==> a@[j] == old(a)@[j],
            V::obeys_add_spec() ==> forall|j: int|
                0 <= j < i ==> a@[j] == old(a)@[j].add_spec(b@[j]),
        decreases n - i,
    {
        assert(old(a)@[i as int].add_req(b@[i as int]));
        let s = a[i] + b[i];
        a.set(i, s);
        i = i + 1;
    }
}

impl<T, V: Copy + Add<Output = V>> AddAssign for MappedVector<T, V> {
    /// Row-wise in-place sum over the rows that both vectors have.
    fn add_assign(&mut self, rhs: Self)
        requires
            can_add_rows(old(self).values@, rhs.values@),
        ensures
            final(self).mapping == old(self).mapping,
            final(self).values@.len() == old(self).values@.len(),
            forall|j: int|
                sum_len(old(self).values@, rhs.values@) <= j < old(self).values@.len()
                    ==> final(self).values@[j] == old(self).values@[j],
            V::obeys_add_spec() ==> final(self).values@ == add_into_rows(
                old(self).values@,
                rhs.values@,
            ),
    {
        add_values_in_place(&mut self.values, &rhs.values);
    }
}

impl<T: PartialEq, V: PartialEq> PartialEq for MappedVector<T, V> {
    fn eq(&self, other: &Self) -> (r: bool) {
        let eq_values = self.values == other.values;
        let eq_mappings = self.mapping == other.mapping;
        eq_values && eq_mappings
    }
}

impl<T: PartialEq, V: PartialEq> vstd::std_specs::cmp::PartialEqSpecImpl for MappedVector<T, V> {
    open spec fn obeys_eq_spec() -> bool {
        T::obeys_eq_spec() && V::obeys_eq_spec()
    }

    open spec fn eq_spec(&self, other: &Self) -> bool {
        rows_eq(self.values@, other.values@) && rows_eq(self.mapping@, other.mapping@)
    }
}

/// Setting a row twice keeps the second value only: the first `set` is
/// overwritten by the second.
pub proof fn law_set_overwrites<T: RowLabel, V>(labels: Seq<T>, values: Seq<V>, label: T, first: V, second: V)
    requires
        position_of(labels, label) matches Some(i) ==> i < values.len(),
    ensures
        values_after_set(labels, values_after_set(labels, values, label, first), label, second)
            == values_after_set(labels, values, label, second),
        value_at(labels, values_after_set(labels, values, label, first), label) == (
        if has_label(labels, label) {
            Some(first)
        } else {
            None::<V>
        }),
{
    lemma_position_of_is_first(labels, label);
    if let Some(i) = position_of(labels, label) {
        assert(values.update(i, first).update(i, second) =~= values.update(i, second));
    }
}

/// Labels and rows correspond one to one: in a vector whose labels are
/// distinct, the row of the label of row `i` is `i`, and the label of the
/// row found for `id` is the same label as `id`.
pub proof fn law_row_irow<T: RowLabel>(labels: Seq<T>, i: int, id: T)
    requires
        distinct_labels(labels),
        0 <= i < labels.len(),
    ensures
        position_of(labels, labels[i]) == Some(i),
        position_of(labels, id) matches Some(k) ==> 0 <= k < labels.len() && labels[k].same_label(id),
{
    T::same_label_reflexive(labels[i]);
    assert(is_first_position(labels, labels[i], i));
    lemma_position_of(labels, labels[i], i);
    lemma_position_of_is_first(labels, id);
}

/// The row found for a label is its first row.
proof fn lemma_position_of_is_first<T: RowLabel>(labels: Seq<T>, id: T)
    ensures
        position_of(labels, id) matches Some(k) ==> is_first_position(labels, id, k),
{
    if has_label(labels, id) {
        lemma_first_exists(labels, id);
    }
}

proof fn lemma_first_exists<T: RowLabel>(labels: Seq<T>, id: T)
    requires
        has_label(labels, id),
    ensures
        exists|k: int| is_first_position(labels, id, k),
    decreases labels.len(),
{
    if labels[0].same_label(id) {
        assert(is_first_position(labels, id, 0));
    } else {
        let j = choose|j: int| 0 <= j < labels.len() && (#[trigger] labels[j]).same_label(id);
        assert(labels.drop_first()[j - 1] == labels[j]);
        assert(has_label(labels.drop_first(), id));
        lemma_first_exists(labels.drop_first(), id);
        let k = choose|k: int| is_first_position(labels.drop_first(), id, k);
        assert forall|j: int| 0 <= j < k + 1 implies !(#[trigger] labels[j]).same_label(id) by {
            if j > 0 {
                assert(labels[j] == labels.drop_first()[j - 1]);
            }
        }
        assert(is_first_position(labels, id, k + 1));
    }
}

/// Adding in place and adding give the same values: over vectors whose
/// first has no more rows than the second, `a += b` leaves in `a` the
/// values of `a + b`.
pub proof fn law_add_assign_is_add<V: Add<Output = V>>(a: Seq<V>, b: Seq<V>)
    requires
        a.len() <= b.len(),
    ensures
        add_into_rows(a, b) == sum_rows(a, b),
{
    assert(add_into_rows(a, b) =~= sum_rows(a, b));
}

/// Adding in place agrees with adding: for vectors with as many values,
/// the vector that `a += b` leaves (labels kept, each value increased by
/// its counterpart) is the vector `a + b` gives.  The values are stated for
/// value types whose `+` has a specification.
pub proof fn law_add_assign_agrees_with_add<T, V: Add<Output = V>>(
    a: MappedVector<T, V>,
    b: MappedVector<T, V>,
    sum: MappedVector<T, V>,
    after: MappedVector<T, V>,
)
    requires
        a.values@.len() == b.values@.len(),
        V::obeys_add_spec(),
        sum.mapping == a.mapping,
        sum.values@ == sum_rows(a.values@, b.values@),
        after.mapping == a.mapping,
        after.values@ == add_into_rows(a.values@, b.values@),
    ensures
        after.mapping == sum.mapping,
        after.values@ == sum.values@,
{
    law_add_assign_is_add(a.values@, b.values@);
}

proof fn lemma_rows_eq_is_equality<A: PartialEq>(x: Seq<A>, y: Seq<A>)
    requires
        obeys_concrete_eq::<A>(),
    ensures
        rows_eq(x, y) <==> x == y,
{
    reveal(obeys_concrete_eq);
    if rows_eq(x, y) {
        assert forall|i: int| 0 <= i < x.len() implies x[i] == y[i] by {
            assert(x[i].eq_spec(&y[i]));
        }
        assert(x =~= y);
    }
    if x == y {
        assert forall|i: int| 0 <= i < x.len() implies #[trigger] x[i].eq_spec(&y[i]) by {
            assert(x[i].eq_spec(&y[i]) <==> x[i] == y[i]);
        }
    }
}

/// Two labelled vectors are equal exactly when they have the same labels,
/// row by row, and the same values: vectors with equal values but other
/// labels, or labels in another order, are not equal.
pub proof fn law_eq_compares_labels_and_values<T: PartialEq, V: PartialEq>(
    a: MappedVector<T, V>,
    b: MappedVector<T, V>,
)
    requires
        obeys_concrete_eq::<T>(),
        obeys_concrete_eq::<V>(),
    ensures
        a.eq_spec(&b) <==> (a.mapping@ == b.mapping@ && a.values@ == b.values@),
{
    lemma_rows_eq_is_equality(a.mapping@, b.mapping@);
    lemma_rows_eq_is_equality(a.values@, b.values@);
}

/// Equality of rows is reflexive for labels and values whose `==` is
/// equality: a vector equals itself.
pub proof fn law_rows_eq_reflexive<A: PartialEq>(a: Seq<A>)
    requires
        obeys_concrete_eq::<A>(),
    ensures
        rows_eq(a, a),
{
    reveal(obeys_concrete_eq);
    assert forall|i: int| 0 <= i < a.len() implies #[trigger] a[i].eq_spec(&a[i]) by {
        assert(a[i].eq_spec(&a[i]) <==> a[i] == a[i]);
    }
}

} // verus!
