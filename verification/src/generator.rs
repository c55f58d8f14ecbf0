//! The lazy Cartesian product of parameter axes.

use crate::params::{AbstractCombination, CellView, MatrixCellValue};
use itertools::structs::MultiProduct;
use itertools::Itertools;
use std::ops::Range;
use vstd::prelude::*;

verus! {

/// `itertools::structs::MultiProduct`, the iterator over the Cartesian
/// product of several iterators of one type. Nothing inside it is
/// visible here.
#[verifier::external_type_specification]
#[verifier::external_body]
#[verifier::reject_recursive_types(I)]
pub struct ExMultiProduct<I>(MultiProduct<I>) where I: Iterator + Clone, I::Item: Clone;

/// The rows that a product of index ranges has still to yield, in the
/// order in which it will yield them.
pub uninterp spec fn pending_rows(product: MultiProduct<Range<usize>>) -> Seq<Seq<usize>>;

/// The number of rows of a product over axes of the lengths
/// `lens[from..]`: the product of those lengths, 1 where none is left.
pub open spec fn span(lens: Seq<nat>, from: int) -> nat
    decreases lens.len() - from,
{
    if from >= lens.len() || from < 0 {
        1
    } else {
        lens[from] * span(lens, from + 1)
    }
}

/// The index into axis `axis` that row `row` of the product holds: the
/// last axis changes fastest, the first slowest.
pub open spec fn index_at(lens: Seq<nat>, row: int, axis: int) -> int {
    (row / (span(lens, axis + 1) as int)) % (lens[axis] as int)
}

/// Row `row` of the product of the ranges `0..lens[j]`.
pub open spec fn index_row(lens: Seq<nat>, row: int) -> Seq<usize> {
    Seq::new(lens.len(), |axis: int| index_at(lens, row, axis) as usize)
}

/// All rows of the product of the ranges `0..lens[j]`, in lexicographic
/// order. The product of no ranges has one row, the empty one.
pub open spec fn index_rows(lens: Seq<nat>) -> Seq<Seq<usize>> {
    Seq::new(span(lens, 0), |row: int| index_row(lens, row))
}

/// The upper ends of a list of ranges.
pub open spec fn range_ends(ranges: Seq<Range<usize>>) -> Seq<nat> {
    Seq::new(ranges.len(), |j: int| ranges[j].end as nat)
}

/// Calls `Itertools::multi_cartesian_product` on the ranges. Each range
/// starts at 0. The product yields every choice of one index per range,
/// in lexicographic order with the last range advancing fastest, and one
/// empty row where there is no range.
#[verifier::external_body]
fn index_product(ranges: Vec<Range<usize>>) -> (product: MultiProduct<Range<usize>>)
    requires
        forall|j: int| 0 <= j < ranges@.len() ==> ranges@[j].start == 0,
    ensures
        pending_rows(product) == index_rows(range_ends(ranges@)),
{
    ranges.into_iter().multi_cartesian_product()
}

/// Calls `MultiProduct::next`: it hands out the first pending row and
/// leaves the others, and returns `None`, for good, once none is left.
#[verifier::external_body]
fn next_row(product: &mut MultiProduct<Range<usize>>) -> (row: Option<Vec<usize>>)
    ensures
        match row {
            Some(indices) => pending_rows(*old(product)).len() > 0 && indices@ == pending_rows(
                *old(product),
            )[0] && pending_rows(*final(product)) == pending_rows(*old(product)).skip(1),
            None => pending_rows(*old(product)).len() == 0 && pending_rows(*final(product)).len()
                == 0,
        },
{
    product.next()
}

/// Calls `MultiProduct::clone`: the copy has the same rows to come, in
/// the same order, and the source keeps its own.
#[verifier::external_body]
fn clone_product(product: &MultiProduct<Range<usize>>) -> (copy: MultiProduct<Range<usize>>)
    ensures
        pending_rows(copy) == pending_rows(*product),
{
    product.clone()
}

/// The axes as sequences of cell views.
pub open spec fn axes_view(axes: Seq<Vec<MatrixCellValue>>) -> Seq<Seq<CellView>> {
    Seq::new(axes.len(), |j: int| Seq::new(axes[j]@.len(), |i: int| axes[j]@[i]@))
}

/// The rows as sequences of cell views.
pub open spec fn rows_view(rows: Seq<AbstractCombination>) -> Seq<Seq<CellView>> {
    Seq::new(rows.len(), |r: int| rows[r]@)
}

/// The length of each axis.
pub open spec fn axis_lens(axes: Seq<Seq<CellView>>) -> Seq<nat> {
    Seq::new(axes.len(), |j: int| axes[j].len())
}

/// How many combinations the axes have: the product of their lengths,
/// and none where there is no axis.
pub open spec fn combination_count(axes: Seq<Seq<CellView>>) -> nat {
    if axes.len() == 0 {
        0
    } else {
        span(axis_lens(axes), 0)
    }
}

/// Combination number `row`: from each axis the cell that the row's
/// index for that axis picks.
pub open spec fn combination_at(axes: Seq<Seq<CellView>>, row: int) -> Seq<CellView> {
    Seq::new(axes.len(), |j: int| axes[j][index_at(axis_lens(axes), row, j)])
}

/// All combinations of the axes, the last axis changing fastest.
pub open spec fn combinations(axes: Seq<Seq<CellView>>) -> Seq<Seq<CellView>> {
    Seq::new(combination_count(axes), |row: int| combination_at(axes, row))
}

/// A product with an empty factor at or after `from` is empty.
pub proof fn lemma_span_zero(lens: Seq<nat>, from: int, empty: int)
    requires
        0 <= from <= empty < lens.len(),
        lens[empty] == 0,
    ensures
        span(lens, from) == 0,
    decreases empty - from,
{
    if from < empty {
        lemma_span_zero(lens, from + 1, empty);
        assert(lens[from] * span(lens, from + 1) == 0) by (nonlinear_arith)
            requires
                span(lens, from + 1) == 0,
        ;
    } else {
        assert(lens[from] * span(lens, from + 1) == 0) by (nonlinear_arith)
            requires
                lens[from] == 0,
        ;
    }
}

/// A product of factors that are all positive does not shrink when
/// factors are added in front, and is positive.
pub proof fn lemma_span_grows(lens: Seq<nat>, from: int)
    requires
        0 <= from <= lens.len(),
        forall|j: int| 0 <= j < lens.len() ==> lens[j] > 0,
    ensures
        1 <= span(lens, from) <= span(lens, 0),
    decreases from,
{
    lemma_span_positive(lens, from);
    if from > 0 {
        lemma_span_grows(lens, from - 1);
        lemma_span_positive(lens, from - 1);
        assert(span(lens, from) <= lens[from - 1] * span(lens, from)) by (nonlinear_arith)
            requires
                lens[from - 1] >= 1,
        ;
    }
}

/// A product of positive factors is positive.
pub proof fn lemma_span_positive(lens: Seq<nat>, from: int)
    requires
        0 <= from <= lens.len(),
        forall|j: int| 0 <= j < lens.len() ==> lens[j] > 0,
    ensures
        1 <= span(lens, from),
    decreases lens.len() - from,
{
    if from < lens.len() {
        lemma_span_positive(lens, from + 1);
        assert(1 <= lens[from] * span(lens, from + 1)) by (nonlinear_arith)
            requires
                lens[from] >= 1,
                span(lens, from + 1) >= 1,
        ;
    }
}

/// In a row of a non-empty product every index lies within its axis.
pub proof fn lemma_index_in_axis(lens: Seq<nat>, row: int, axis: int)
    requires
        0 <= row < span(lens, 0),
        0 <= axis < lens.len(),
    ensures
        0 <= index_at(lens, row, axis) < lens[axis],
{
    if lens[axis] == 0 {
        lemma_span_zero(lens, 0, axis);
    }
    vstd::arithmetic::div_mod::lemma_mod_bound(
        row / (span(lens, axis + 1) as int),
        lens[axis] as int,
    );
}

/// Whether `choice` picks one index within each axis.
pub open spec fn is_choice(lens: Seq<nat>, choice: Seq<int>) -> bool {
    &&& choice.len() == lens.len()
    &&& forall|j: int| 0 <= j < lens.len() ==> 0 <= #[trigger] choice[j] < lens[j]
}

/// The weight of the indices `choice[from..]`: each index counts as many
/// rows as the axes after it span.
pub open spec fn rank(lens: Seq<nat>, choice: Seq<int>, from: int) -> int
    decreases lens.len() - from,
{
    if from >= lens.len() || from < 0 {
        0
    } else {
        choice[from] * span(lens, from + 1) + rank(lens, choice, from + 1)
    }
}

/// The indices `choice[..upto]` read as one number, the first index
/// weighing most.
pub open spec fn prefix_rank(lens: Seq<nat>, choice: Seq<int>, upto: int) -> int
    decreases upto,
{
    if upto <= 0 {
        0
    } else {
        prefix_rank(lens, choice, upto - 1) * lens[upto - 1] + choice[upto - 1]
    }
}

/// The number of the row that makes the choice.
pub open spec fn row_of_choice(lens: Seq<nat>, choice: Seq<int>) -> int {
    rank(lens, choice, 0)
}

/// The indices of a row as integers.
pub open spec fn choice_of_row(lens: Seq<nat>, row: int) -> Seq<int> {
    Seq::new(lens.len(), |axis: int| index_at(lens, row, axis))
}

/// The weight of the last indices of a choice is less than what their
/// axes span.
pub proof fn lemma_rank_bound(lens: Seq<nat>, choice: Seq<int>, from: int)
    requires
        is_choice(lens, choice),
        0 <= from <= lens.len(),
    ensures
        0 <= rank(lens, choice, from) < span(lens, from),
    decreases lens.len() - from,
{
    if from < lens.len() {
        lemma_rank_bound(lens, choice, from + 1);
        let c = choice[from];
        let l = lens[from] as int;
        let s = span(lens, from + 1) as int;
        let r = rank(lens, choice, from + 1);
        assert(0 <= c * s + r < l * s) by (nonlinear_arith)
            requires
                0 <= c < l,
                0 <= r < s,
        ;
    }
}

/// The row of a choice splits at every axis into the first indices,
/// read as a number, times the span of the other axes, and the weight
/// of the other indices.
pub proof fn lemma_rank_split(lens: Seq<nat>, choice: Seq<int>, at: int)
    requires
        is_choice(lens, choice),
        0 <= at <= lens.len(),
    ensures
        0 <= prefix_rank(lens, choice, at),
        row_of_choice(lens, choice) == prefix_rank(lens, choice, at) * span(lens, at) + rank(
            lens,
            choice,
            at,
        ),
    decreases at,
{
    if at > 0 {
        lemma_rank_split(lens, choice, at - 1);
        let q = prefix_rank(lens, choice, at - 1);
        let l = lens[at - 1] as int;
        let c = choice[at - 1];
        let s = span(lens, at) as int;
        let r = rank(lens, choice, at);
        assert(span(lens, at - 1) == l * s);
        assert(rank(lens, choice, at - 1) == c * s + r);
        assert(q * (l * s) + (c * s + r) == (q * l + c) * s + r) by (nonlinear_arith);
        assert(0 <= q * l + c) by (nonlinear_arith)
            requires
                0 <= q,
                0 <= l,
                0 <= c,
        ;
    } else {
        assert(0 * span(lens, 0) == 0) by (nonlinear_arith);
    }
}

/// The product is complete: every choice of one index per axis is made
/// by a row of the product, the row that its rank numbers.
pub proof fn lemma_every_choice_has_its_row(lens: Seq<nat>, choice: Seq<int>)
    requires
        is_choice(lens, choice),
    ensures
        0 <= row_of_choice(lens, choice) < span(lens, 0),
        choice_of_row(lens, row_of_choice(lens, choice)) == choice,
{
    lemma_rank_bound(lens, choice, 0);
    let row = row_of_choice(lens, choice);
    assert forall|j: int| 0 <= j < lens.len() implies index_at(lens, row, j) == choice[j] by {
        lemma_rank_split(lens, choice, j + 1);
        lemma_rank_bound(lens, choice, j + 1);
        let q = prefix_rank(lens, choice, j + 1);
        let s = span(lens, j + 1) as int;
        vstd::arithmetic::div_mod::lemma_fundamental_div_mod_converse(
            row,
            s,
            q,
            rank(lens, choice, j + 1),
        );
        lemma_rank_split(lens, choice, j);
        vstd::arithmetic::div_mod::lemma_fundamental_div_mod_converse(
            q,
            lens[j] as int,
            prefix_rank(lens, choice, j),
            choice[j],
        );
    }
    assert(choice_of_row(lens, row) =~= choice);
}

/// The last indices of a row weigh what is left of the row's number
/// after division by the span of their axes.
pub proof fn lemma_rank_of_row(lens: Seq<nat>, row: int, from: int)
    requires
        0 <= row < span(lens, 0),
        0 <= from <= lens.len(),
    ensures
        span(lens, from) > 0,
        rank(lens, choice_of_row(lens, row), from) == row % (span(lens, from) as int),
    decreases lens.len() - from,
{
    if exists|j: int| 0 <= j < lens.len() && lens[j] == 0 {
        let j = choose|j: int| 0 <= j < lens.len() && lens[j] == 0;
        lemma_span_zero(lens, 0, j);
    }
    lemma_span_positive(lens, from);
    if from < lens.len() {
        lemma_rank_of_row(lens, row, from + 1);
        let s = span(lens, from + 1) as int;
        let l = lens[from] as int;
        vstd::arithmetic::div_mod::lemma_breakdown(row, s, l);
        assert(l * s == s * l) by (nonlinear_arith);
        assert(((row / s) % l) * s == s * ((row / s) % l)) by (nonlinear_arith);
        assert(choice_of_row(lens, row)[from] == (row / s) % l);
    } else {
        assert(row % 1 == 0);
    }
}

/// The product has no row twice: the indices of a row give back the
/// row's number, so two rows with the same indices are one row.
pub proof fn lemma_rows_differ(lens: Seq<nat>, first: int, second: int)
    requires
        0 <= first < span(lens, 0),
        0 <= second < span(lens, 0),
        choice_of_row(lens, first) == choice_of_row(lens, second),
    ensures
        first == second,
        row_of_choice(lens, choice_of_row(lens, first)) == first,
{
    lemma_rank_of_row(lens, first, 0);
    lemma_rank_of_row(lens, second, 0);
    vstd::arithmetic::div_mod::lemma_small_mod(first as nat, span(lens, 0));
    vstd::arithmetic::div_mod::lemma_small_mod(second as nat, span(lens, 0));
}

/// Every way of taking one cell from each axis is a combination: the
/// one that stands at the rank of the choice.
pub proof fn lemma_every_choice_is_generated(axes: Seq<Seq<CellView>>, choice: Seq<int>)
    requires
        axes.len() > 0,
        is_choice(axis_lens(axes), choice),
    ensures
        0 <= row_of_choice(axis_lens(axes), choice) < combinations(axes).len(),
        combinations(axes)[row_of_choice(axis_lens(axes), choice)] == Seq::new(
            axes.len(),
            |j: int| axes[j][choice[j]],
        ),
{
    let lens = axis_lens(axes);
    lemma_every_choice_has_its_row(lens, choice);
    let row = row_of_choice(lens, choice);
    assert forall|j: int| 0 <= j < axes.len() implies index_at(lens, row, j) == choice[j] by {
        assert(choice_of_row(lens, row)[j] == index_at(lens, row, j));
    }
    assert(combinations(axes)[row] =~= Seq::new(axes.len(), |j: int| axes[j][choice[j]]));
}

/// A list of at least one axis has as many combinations as the product
/// of the lengths of its axes; each combination has one cell per axis,
/// and the cell at each place comes from the axis at that place.
pub proof fn lemma_combinations_shape(axes: Seq<Seq<CellView>>)
    requires
        axes.len() > 0,
    ensures
        combinations(axes).len() == span(axis_lens(axes), 0),
        forall|row: int|
            0 <= row < combinations(axes).len() ==> (#[trigger] combinations(axes)[row]).len()
                == axes.len(),
        forall|row: int, j: int|
            0 <= row < combinations(axes).len() && 0 <= j < axes.len() ==> axes[j].contains(
                #[trigger] combinations(axes)[row][j],
            ),
{
    let lens = axis_lens(axes);
    assert forall|row: int, j: int|
        0 <= row < combinations(axes).len() && 0 <= j < axes.len() implies axes[j].contains(
        #[trigger] combinations(axes)[row][j],
    ) by {
        lemma_index_in_axis(lens, row, j);
        assert(combinations(axes)[row][j] == axes[j][index_at(lens, row, j)]);
    }
}

/// Axes of which one is empty have no combination at all.
pub proof fn lemma_empty_axis_no_combinations(axes: Seq<Seq<CellView>>, empty: int)
    requires
        0 <= empty < axes.len(),
        axes[empty].len() == 0,
    ensures
        combinations(axes).len() == 0,
{
    lemma_span_zero(axis_lens(axes), 0, empty);
}

/// No axes have no combination at all: not even the empty one.
pub proof fn lemma_no_axes_no_combinations(axes: Seq<Seq<CellView>>)
    requires
        axes.len() == 0,
    ensures
        combinations(axes).len() == 0,
{
}

/// Generation is deterministic: two lists of axes that hold the same
/// values have the same combinations in the same order.
pub proof fn lemma_generation_deterministic(
    first: Seq<Vec<MatrixCellValue>>,
    second: Seq<Vec<MatrixCellValue>>,
)
    requires
        axes_view(first) == axes_view(second),
    ensures
        combinations(axes_view(first)) == combinations(axes_view(second)),
{
}

/// A lazy sequence of all combinations of a list of axes. It yields one
/// row at a time and knows from the start how many rows there are in
/// all.
#[derive(Debug)]
pub struct CombinationIterator<'a> {
    /// The axes that the rows draw their cells from.
    axes: &'a [Vec<MatrixCellValue>],
    /// The product over the index ranges of the axes.
    inner_iterator: MultiProduct<Range<usize>>,
    /// The number of rows in all.
    len: usize,
    /// The number of rows yielded so far.
    position: usize,
}

impl<'a> Clone for CombinationIterator<'a> {
    /// A second iterator over the same axes that stands where this one
    /// stands.
    fn clone(&self) -> (copy: Self)
        ensures
            copy.axes() == self.axes(),
            copy.position() == self.position(),
            self.wf() ==> copy.wf(),
    {
        CombinationIterator {
            axes: self.axes,
            inner_iterator: clone_product(&self.inner_iterator),
            len: self.len,
            position: self.position,
        }
    }
}

impl<'a> CombinationIterator<'a> {
    /// The axes that the rows are drawn from.
    pub closed spec fn axes(&self) -> Seq<Seq<CellView>> {
        axes_view(self.axes@)
    }

    /// The number of rows yielded so far.
    pub closed spec fn position(&self) -> nat {
        self.position as nat
    }

    /// The rows that are still to come, in order.
    pub open spec fn remaining(&self) -> Seq<Seq<CellView>> {
        combinations(self.axes()).skip(self.position() as int)
    }

    /// The total fits the machine, the position lies within it, and the
    /// product of index ranges stands where the position says.
    pub closed spec fn wf(&self) -> bool {
        &&& self.len == combination_count(self.axes())
        &&& self.position <= self.len
        &&& self.axes@.len() > 0 ==> pending_rows(self.inner_iterator) == index_rows(
            axis_lens(self.axes()),
        ).skip(self.position as int)
    }

    /// Two iterators over the same axes that have yielded equally many
    /// rows have the same rows to come.
    pub proof fn lemma_same_rows_to_come(&self, other: &Self)
        requires
            self.axes() == other.axes(),
            self.position() == other.position(),
        ensures
            self.remaining() == other.remaining(),
    {
    }

    /// A valid iterator has not yielded more rows than there are.
    pub proof fn lemma_position_in_range(&self)
        requires
            self.wf(),
        ensures
            self.position() <= combination_count(self.axes()) <= usize::MAX,
    {
    }

    /// The number of combinations in all. It does not change while rows
    /// are taken.
    pub fn len(&self) -> (total: usize)
        requires
            self.wf(),
        ensures
            total == combination_count(self.axes()),
    {
        self.len
    }

    /// The bounds on the length: both are the number of combinations in
    /// all.
    pub fn size_hint(&self) -> (bounds: (usize, Option<usize>))
        requires
            self.wf(),
        ensures
            bounds.0 == combination_count(self.axes()),
            bounds.1 == Some(bounds.0),
    {
        (self.len, Some(self.len))
    }

    /// The row that the indices pick from the axes.
    fn row_of(&self, indices: &Vec<usize>) -> (row: AbstractCombination)
        requires
            self.position() < combination_count(self.axes()),
            indices@ == index_row(axis_lens(self.axes()), self.position() as int),
        ensures
            row@ == combination_at(self.axes(), self.position() as int),
    {
        let ghost lens = axis_lens(self.axes());
        let n: usize = self.axes.len();
        let mut cells: Vec<MatrixCellValue> = Vec::new();
        let mut j: usize = 0;
        while j < n
            invariant
                n == self.axes@.len(),
                lens == axis_lens(self.axes()),
                self.position() < span(lens, 0),
                indices@ == index_row(lens, self.position() as int),
                j <= n,
                cells@.len() == j,
                forall|k: int|
                    0 <= k < j ==> cells@[k]@ == combination_at(
                        self.axes(),
                        self.position() as int,
                    )[k],
            decreases n - j,
        {
            proof {
                lemma_index_in_axis(lens, self.position() as int, j as int);
            }
            let index: usize = indices[j];
            let axis: &Vec<MatrixCellValue> = &self.axes[j];
            let axis_len: usize = axis.len();
            assert(lens[j as int] == axis_len);
            assert(index == index_row(lens, self.position() as int)[j as int]);
            assert(index as int == index_at(lens, self.position() as int, j as int));
            cells.push(axis[index].clone());
            assert(self.axes()[j as int][index as int] == self.axes@[j as int]@[index as int]@);
            assert(combination_at(self.axes(), self.position() as int)[j as int]
                == self.axes()[j as int][index as int]);
            j = j + 1;
        }
        let row = AbstractCombination { cells };
        assert(row@ =~= combination_at(self.axes(), self.position() as int));
        row
    }

    /// The next combination, or `None` once all have been yielded.
    pub fn next(&mut self) -> (item: Option<AbstractCombination>)
        requires
            old(self).wf(),
        ensures
            final(self).wf(),
            final(self).axes() == old(self).axes(),
            match item {
                Some(row) => {
                    &&& old(self).position() < combination_count(old(self).axes())
                    &&& row@ == combination_at(old(self).axes(), old(self).position() as int)
                    &&& final(self).position() == old(self).position() + 1
                },
                None => {
                    &&& old(self).position() == combination_count(old(self).axes())
                    &&& final(self).position() == old(self).position()
                },
            },
    {
        if self.axes.len() == 0 {
            return None;
        }
        let ghost all = index_rows(axis_lens(self.axes()));
        let ghost before = pending_rows(self.inner_iterator);
        match next_row(&mut self.inner_iterator) {
            None => {
                assert(pending_rows(self.inner_iterator) =~= before);
                None
            },
            Some(indices) => {
                assert(before[0] == all[self.position as int]);
                assert(before.skip(1) =~= all.skip(self.position + 1));
                let row = self.row_of(&indices);
                self.position = self.position + 1;
                Some(row)
            },
        }
    }

    /// All combinations that are still to come, in order.
    pub fn collect(self) -> (rows: Vec<AbstractCombination>)
        requires
            self.wf(),
        ensures
            rows_view(rows@) == self.remaining(),
    {
        let mut source = self;
        let mut rows: Vec<AbstractCombination> = Vec::new();
        loop
            invariant
                source.wf(),
                source.axes() == self.axes(),
                self.position() <= source.position(),
                rows@.len() == source.position() - self.position(),
                forall|r: int|
                    0 <= r < rows@.len() ==> rows@[r]@ == combination_at(
                        self.axes(),
                        self.position() + r,
                    ),
            ensures
                source.position() == combination_count(self.axes()),
            decreases combination_count(source.axes()) - source.position(),
        {
            match source.next() {
                Some(row) => rows.push(row),
                None => break ,
            }
        }
        assert(rows_view(rows@) =~= self.remaining());
        rows
    }

    /// The number of combinations that are still to come.
    pub fn count(self) -> (n: usize)
        requires
            self.wf(),
        ensures
            n == self.remaining().len(),
    {
        let mut source = self;
        let mut n: usize = 0;
        loop
            invariant
                source.wf(),
                source.axes() == self.axes(),
                self.position() <= source.position(),
                n == source.position() - self.position(),
            ensures
                source.position() == combination_count(self.axes()),
            decreases combination_count(source.axes()) - source.position(),
        {
            proof {
                source.lemma_position_in_range();
            }
            match source.next() {
                Some(_) => {
                    n = n + 1;
                },
                None => break ,
            }
        }
        n
    }
}

/// The number of combinations of the axes, or `None` where it does not
/// fit a `usize`.
pub fn combination_total(axes: &[Vec<MatrixCellValue>]) -> (total: Option<usize>)
    ensures
        match total {
            Some(n) => n == combination_count(axes_view(axes@)),
            None => combination_count(axes_view(axes@)) > usize::MAX,
        },
{
    let ghost lens = axis_lens(axes_view(axes@));
    let n: usize = axes.len();
    if n == 0 {
        return Some(0);
    }
    let mut j: usize = 0;
    while j < n
        invariant
            n == axes@.len(),
            lens == axis_lens(axes_view(axes@)),
            j <= n,
            forall|k: int| 0 <= k < j ==> lens[k] > 0,
        decreases n - j,
    {
        if axes[j].len() == 0 {
            proof {
                lemma_span_zero(lens, 0, j as int);
            }
            return Some(0);
        }
        j = j + 1;
    }
    let mut product: usize = 1;
    let mut i: usize = n;
    while i > 0
        invariant
            n == axes@.len(),
            lens == axis_lens(axes_view(axes@)),
            i <= n,
            forall|k: int| 0 <= k < n ==> lens[k] > 0,
            product == span(lens, i as int),
        decreases i,
    {
        i = i - 1;
        match product.checked_mul(axes[i].len()) {
            Some(larger) => {
                assert(lens[i as int] * span(lens, i + 1) == span(lens, i + 1) * lens[i as int])
                    by (nonlinear_arith);
                product = larger;
            },
            None => {
                proof {
                    assert(lens[i as int] * span(lens, i + 1) == span(lens, i + 1) * lens[i as int])
                        by (nonlinear_arith);
                    lemma_span_grows(lens, i as int);
                }
                return None;
            },
        }
    }
    Some(product)
}

/// The lazy sequence of all combinations of the axes: every choice of
/// one cell per axis, in the order of nested loops with the first axis
/// outermost. It is empty where there is no axis or an axis is empty.
pub fn generate_combinations(axes: &[Vec<MatrixCellValue>]) -> (rows: CombinationIterator<'_>)
    requires
        combination_count(axes_view(axes@)) <= usize::MAX,
    ensures
        rows.wf(),
        rows.axes() == axes_view(axes@),
        rows.position() == 0,
{
    let total = combination_total(axes);
    let len: usize = match total {
        Some(n) => n,
        None => 0,
    };
    let n: usize = axes.len();
    let mut ranges: Vec<Range<usize>> = Vec::new();
    let mut j: usize = 0;
    while j < n
        invariant
            n == axes@.len(),
            j <= n,
            ranges@.len() == j,
            forall|k: int| 0 <= k < j ==> ranges@[k].start == 0 && ranges@[k].end == axes@[k]@.len(),
        decreases n - j,
    {
        ranges.push(0..axes[j].len());
        j = j + 1;
    }
    assert(range_ends(ranges@) =~= axis_lens(axes_view(axes@)));
    let inner_iterator = index_product(ranges);
    assert(pending_rows(inner_iterator) =~= index_rows(axis_lens(axes_view(axes@))).skip(0));
    CombinationIterator { axes, inner_iterator, len, position: 0 }
}

/// The combinations of the axes as a lazy sequence, or `None` where
/// their number does not fit a `usize`.
pub fn try_generate_combinations(axes: &[Vec<MatrixCellValue>]) -> (rows: Option<
    CombinationIterator<'_>,
>)
    ensures
        match rows {
            Some(rows) => {
                &&& combination_count(axes_view(axes@)) <= usize::MAX
                &&& rows.wf()
                &&& rows.axes() == axes_view(axes@)
                &&& rows.position() == 0
            },
            None => combination_count(axes_view(axes@)) > usize::MAX,
        },
{
    match combination_total(axes) {
        Some(_) => Some(generate_combinations(axes)),
        None => None,
    }
}

} // verus!
