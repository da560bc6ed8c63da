//! Column geometry: how wide each column is, and the constraints that the
//! layout of a table is made of.

use vstd::prelude::*;
use crate::tabular::{ColumnPolicy, Constraint};
use crate::text::{text_width, width_of};

verus! {

/// Whether `w` is the width of the widest cell in column `c` of `rows`.
pub open spec fn is_widest(rows: Seq<Seq<Seq<char>>>, c: int, w: u16) -> bool {
    &&& forall|r: int| 0 <= r < rows.len() ==> width_of(#[trigger] rows[r][c]) <= w
    &&& exists|r: int| 0 <= r < rows.len() && width_of(#[trigger] rows[r][c]) == w
}

/// Whether `widths` holds, for each of `columns` columns, the width of its
/// widest cell in `rows`; with no rows there are no columns.
pub open spec fn are_widths(rows: Seq<Seq<Seq<char>>>, columns: int, widths: Seq<u16>) -> bool {
    if rows.len() == 0 {
        widths.len() == 0
    } else {
        &&& widths.len() == columns
        &&& forall|c: int| 0 <= c < columns ==> is_widest(rows, c, #[trigger] widths[c])
    }
}

/// The width of the widest cell in each of `columns` columns of `rows`.
pub fn columns_max_widths(rows: &Vec<Vec<String>>, columns: usize) -> (widths: Vec<u16>)
    requires
        forall|r: int| 0 <= r < rows@.len() ==> (#[trigger] rows@[r])@.len() == columns,
    ensures
        are_widths(rows.deep_view(), columns as int, widths@),
{
    let mut widths: Vec<u16> = Vec::new();
    if rows.len() == 0 {
        return widths;
    }
    let ghost texts = rows.deep_view();
    let mut c: usize = 0;
    while c < columns
        invariant
            c <= columns,
            rows@.len() > 0,
            texts == rows.deep_view(),
            forall|r: int| 0 <= r < rows@.len() ==> (#[trigger] rows@[r])@.len() == columns,
            widths@.len() == c,
            forall|k: int| 0 <= k < c ==> is_widest(texts, k, #[trigger] widths@[k]),
        decreases columns - c,
    {
        let mut w: u16 = text_width(rows[0][c].as_str());
        let ghost mut at: int = 0;
        assert(texts[0][c as int] == rows@[0]@[c as int]@);
        let mut r: usize = 1;
        while r < rows.len()
            invariant
                1 <= r <= rows@.len(),
                c < columns,
                texts == rows.deep_view(),
                forall|r: int| 0 <= r < rows@.len() ==> (#[trigger] rows@[r])@.len() == columns,
                0 <= at < r,
                width_of(texts[at][c as int]) == w,
                forall|k: int| 0 <= k < r ==> width_of(#[trigger] texts[k][c as int]) <= w,
            decreases rows@.len() - r,
        {
            let here = text_width(rows[r][c].as_str());
            assert(texts[r as int][c as int] == rows@[r as int]@[c as int]@);
            if here > w {
                w = here;
                proof {
                    at = r as int;
                }
            }
            r += 1;
        }
        widths.push(w);
        c += 1;
    }
    widths
}

/// The constraint of each column: its policy applied to its width.
pub open spec fn applied(widths: Seq<u16>, policies: Seq<ColumnPolicy>) -> Seq<Constraint> {
    Seq::new(
        if widths.len() <= policies.len() {
            widths.len()
        } else {
            policies.len()
        },
        |c: int| policies[c].spec_apply(widths[c]),
    )
}

/// Applies to each width the policy of its column.
pub fn apply_policies(widths: &Vec<u16>, policies: &Vec<ColumnPolicy>) -> (constraints: Vec<
    Constraint,
>)
    ensures
        constraints@ == applied(widths@, policies@),
{
    let mut constraints: Vec<Constraint> = Vec::new();
    let mut c: usize = 0;
    while c < widths.len() && c < policies.len()
        invariant
            c <= widths@.len(),
            c <= policies@.len(),
            constraints@.len() == c,
            forall|k: int|
                0 <= k < c ==> #[trigger] constraints@[k] == policies@[k].spec_apply(widths@[k]),
        decreases widths@.len() - c,
    {
        constraints.push(policies[c].apply(widths[c]));
        c += 1;
    }
    assert(constraints@ =~= applied(widths@, policies@));
    constraints
}

/// The constraints of the columns with a gap between each two: the columns
/// stand at the even places, the gaps at the odd ones.
pub open spec fn interleaved(columns: Seq<Constraint>, gap: Constraint) -> Seq<Constraint> {
    Seq::new(
        if columns.len() == 0 {
            0
        } else {
            (2 * columns.len() - 1) as nat
        },
        |i: int|
            if i % 2 == 0 {
                columns[i / 2]
            } else {
                gap
            },
    )
}

/// Puts `gap` between each two of `columns`.
pub fn interleave(columns: &Vec<Constraint>, gap: Constraint) -> (slices: Vec<Constraint>)
    ensures
        slices@ == interleaved(columns@, gap),
{
    let mut slices: Vec<Constraint> = Vec::new();
    let mut c: usize = 0;
    while c < columns.len()
        invariant
            c <= columns@.len(),
            slices@.len() == (if c == 0 {
                0
            } else {
                2 * c - 1
            }),
            forall|i: int|
                0 <= i < slices@.len() ==> #[trigger] slices@[i] == (if i % 2 == 0 {
                    columns@[i / 2]
                } else {
                    gap
                }),
        decreases columns@.len() - c,
    {
        if c > 0 {
            slices.push(gap);
        }
        slices.push(columns[c]);
        c += 1;
    }
    assert(slices@ =~= interleaved(columns@, gap));
    slices
}

/// The sum of the first `n` of `widths`.
pub open spec fn sum_of(widths: Seq<u16>, n: int) -> int
    decreases n,
{
    if n <= 0 {
        0
    } else {
        sum_of(widths, n - 1) + widths[n - 1]
    }
}

/// The cells that the columns take side by side, `spacing` cells apart.
pub open spec fn content_width(widths: Seq<u16>, spacing: u16) -> int {
    if widths.len() == 0 {
        0
    } else {
        sum_of(widths, widths.len() as int) + spacing * (widths.len() - 1)
    }
}

/// `content_width`, held at `u16::MAX`.
pub open spec fn inner_width_of(widths: Seq<u16>, spacing: u16) -> u16 {
    if content_width(widths, spacing) > u16::MAX {
        u16::MAX
    } else {
        content_width(widths, spacing) as u16
    }
}

proof fn lemma_sum_nonnegative(widths: Seq<u16>, n: int)
    ensures
        sum_of(widths, n) >= 0,
    decreases n,
{
    if n > 0 {
        lemma_sum_nonnegative(widths, n - 1);
    }
}

/// The width of the columns side by side, `spacing` cells apart.
pub fn inner_width(widths: &Vec<u16>, spacing: u16) -> (total: u16)
    ensures
        total == inner_width_of(widths@, spacing),
{
    if widths.len() == 0 {
        return 0;
    }
    let mut total: u16 = widths[0];
    let mut c: usize = 1;
    assert(sum_of(widths@, 1) == widths@[0]) by {
        assert(sum_of(widths@, 0) == 0);
    }
    while c < widths.len()
        invariant
            1 <= c <= widths@.len(),
            total == (if sum_of(widths@, c as int) + spacing * (c - 1) > u16::MAX {
                u16::MAX as int
            } else {
                sum_of(widths@, c as int) + spacing * (c - 1)
            }),
        decreases widths@.len() - c,
    {
        proof {
            lemma_sum_nonnegative(widths@, c as int);
            assert(spacing * (c - 1) >= 0) by (nonlinear_arith)
                requires
                    spacing >= 0,
                    c >= 1,
            ;
            assert(spacing * c == spacing * (c - 1) + spacing) by (nonlinear_arith);
        }
        total = total.saturating_add(spacing).saturating_add(widths[c]);
        c += 1;
    }
    total
}

} // verus!
