//! Report assembly: comparing sketch sizes and warnings with a base compilation, and
//! summarising the sizes of all sketches of a board.
use vstd::prelude::*;

use crate::output_parse::{count_warnings, flash_captures, flash_sizes, ram_captures, ram_sizes, warning_count};
use crate::report_model::{
    AbsCount, BoardSize, Ratio, SizeValue, Sketch, SketchDeltaSize, SketchSize, SketchSizeKind, SketchWarnings,
};

verus! {

// ---------------------------------------------------------------------------------------
// Deltas against a base compilation
// ---------------------------------------------------------------------------------------

/// `cur` after comparing it with the size `base` of the same sketch at the base ref:
/// the previous size is the base's current size, and the delta is the difference of the
/// current sizes (relative to the current maximum when that is known).
pub open spec fn with_base_deltas(cur: SketchSize, base: SketchSize) -> SketchSize {
    let previous = SketchDeltaSize { absolute: base.current.absolute, relative: None };
    let delta = match (cur.current.absolute, base.current.absolute) {
        (SizeValue::Known(c), SizeValue::Known(p)) => SketchDeltaSize {
            absolute: SizeValue::Known((c - p) as i64),
            relative: match cur.maximum {
                Some(SizeValue::Known(m)) => Some(
                    SizeValue::Known(Ratio { numerator: (c - p) as i64, denominator: m }),
                ),
                _ => Some(SizeValue::NotApplicable),
            },
        },
        _ => SketchDeltaSize {
            absolute: SizeValue::NotApplicable,
            relative: Some(SizeValue::NotApplicable),
        },
    };
    SketchSize {
        maximum: cur.maximum,
        current: cur.current,
        previous: Some(previous),
        delta: Some(delta),
    }
}

/// The difference of the two current sizes fits in an `i64` (where both are known).
pub open spec fn deltas_in_range(cur: SketchSize, base: SketchSize) -> bool {
    match (cur.current.absolute, base.current.absolute) {
        (SizeValue::Known(c), SizeValue::Known(p)) => i64::MIN <= c - p <= i64::MAX,
        _ => true,
    }
}

/// Sets the previous size and the delta of `current_size` from `base_size`.
pub fn calc_deltas(current_size: &mut SketchSize, base_size: &SketchSize)
    requires
        deltas_in_range(*old(current_size), *base_size),
    ensures
        *final(current_size) == with_base_deltas(*old(current_size), *base_size),
{
    current_size.previous = Some(
        SketchDeltaSize { absolute: base_size.current.absolute, relative: None },
    );
    let (delta_abs, delta_relative) = match (
        current_size.current.absolute,
        base_size.current.absolute,
    ) {
        (SizeValue::Known(curr), SizeValue::Known(prev)) => {
            let delta = curr - prev;
            let delta_rel = match current_size.maximum {
                Some(SizeValue::Known(v)) => Some(
                    SizeValue::Known(Ratio { numerator: delta, denominator: v }),
                ),
                _ => Some(SizeValue::NotApplicable),
            };
            (SizeValue::Known(delta), delta_rel)
        },
        _ => (SizeValue::NotApplicable, Some(SizeValue::NotApplicable)),
    };
    current_size.delta = Some(SketchDeltaSize { absolute: delta_abs, relative: delta_relative });
}

/// The first size of the given kind (flash or RAM) in `sizes`.
pub open spec fn first_size_of_kind(sizes: Seq<SketchSizeKind>, flash: bool) -> Option<
    SketchSize,
>
    decreases sizes.len(),
{
    if sizes.len() == 0 {
        None
    } else if sizes[0].is_flash() == flash {
        Some(sizes[0].size_of())
    } else {
        first_size_of_kind(sizes.drop_first(), flash)
    }
}

/// A size of a sketch after comparison with the sizes of the same sketch at the base ref:
/// compared with the first base size of the same kind, unchanged when there is none.
pub open spec fn size_with_base(k: SketchSizeKind, base_sizes: Seq<SketchSizeKind>) -> SketchSizeKind {
    match k {
        SketchSizeKind::Ram { size } => match first_size_of_kind(base_sizes, false) {
            Some(b) => SketchSizeKind::Ram { size: with_base_deltas(size, b) },
            None => k,
        },
        SketchSizeKind::Flash { size } => match first_size_of_kind(base_sizes, true) {
            Some(b) => SketchSizeKind::Flash { size: with_base_deltas(size, b) },
            None => k,
        },
    }
}

/// Warnings of a sketch after comparison with the warnings of the base compilation:
/// where both are present, the previous count is the base's current count and the delta
/// is the difference; otherwise unchanged.
pub open spec fn warnings_with_base(cur: Option<SketchWarnings>, base: Option<SketchWarnings>) -> Option<
    SketchWarnings,
> {
    match (cur, base) {
        (Some(c), Some(b)) => Some(
            SketchWarnings {
                current: c.current,
                previous: AbsCount { absolute: b.current.absolute },
                delta: AbsCount { absolute: (c.current.absolute - b.current.absolute) as i32 },
            },
        ),
        _ => cur,
    }
}

/// The first sketch of `base` whose name is `name`.
pub open spec fn find_by_name(base: Seq<Sketch>, name: Seq<char>) -> Option<Sketch>
    decreases base.len(),
{
    if base.len() == 0 {
        None
    } else if base[0].name@ == name {
        Some(base[0])
    } else {
        find_by_name(base.drop_first(), name)
    }
}

/// All differences computed when comparing `s` with its base counterpart fit their types.
pub open spec fn sketch_base_in_range(s: Sketch, base: Sketch) -> bool {
    &&& (forall|k: int|
        0 <= k < s.sizes@.len() ==> {
            let size = (#[trigger] s.sizes@[k]).size_of();
            match first_size_of_kind(base.sizes@, s.sizes@[k].is_flash()) {
                Some(b) => deltas_in_range(size, b),
                None => true,
            }
        })
    &&& match (s.warnings, base.warnings) {
        (Some(c), Some(b)) => i32::MIN <= c.current.absolute - b.current.absolute <= i32::MAX,
        _ => true,
    }
}

/// All differences computed by [`apply_base_report`] fit their types.
pub open spec fn base_report_in_range(reports: Seq<Sketch>, base: Seq<Sketch>) -> bool {
    forall|i: int|
        0 <= i < reports.len() ==> match find_by_name(base, (#[trigger] reports[i]).name@) {
            Some(b) => sketch_base_in_range(reports[i], b),
            None => true,
        }
}

/// Index of the first sketch of `base` named like `name`.
fn find_index_by_name(base: &[Sketch], name: &String) -> (r: Option<usize>)
    ensures
        match r {
            Some(j) => j < base@.len() && find_by_name(base@, name@) == Some(base@[j as int]),
            None => find_by_name(base@, name@) is None,
        },
{
    let mut j: usize = 0;
    assert(base@.skip(0) =~= base@);
    while j < base.len()
        invariant
            j <= base@.len(),
            find_by_name(base@, name@) == find_by_name(base@.skip(j as int), name@),
        decreases base.len() - j,
    {
        assert(base@.skip(j as int).drop_first() =~= base@.skip(j + 1));
        if base[j].name == *name {
            return Some(j);
        }
        j = j + 1;
    }
    None
}

/// Index of the first size of the given kind in `sizes`.
fn find_size_of_kind(sizes: &Vec<SketchSizeKind>, flash: bool) -> (r: Option<usize>)
    ensures
        match r {
            Some(j) => j < sizes@.len() && first_size_of_kind(sizes@, flash) == Some(
                sizes@[j as int].size_of(),
            ),
            None => first_size_of_kind(sizes@, flash) is None,
        },
{
    let mut j: usize = 0;
    assert(sizes@.skip(0) =~= sizes@);
    while j < sizes.len()
        invariant
            j <= sizes@.len(),
            first_size_of_kind(sizes@, flash) == first_size_of_kind(sizes@.skip(j as int), flash),
        decreases sizes.len() - j,
    {
        assert(sizes@.skip(j as int).drop_first() =~= sizes@.skip(j + 1));
        let is_flash = match sizes[j] {
            SketchSizeKind::Flash { .. } => true,
            SketchSizeKind::Ram { .. } => false,
        };
        if is_flash == flash {
            return Some(j);
        }
        j = j + 1;
    }
    None
}

/// Compares every sketch of `sketch_reports` with the sketch of the same name in
/// `base_sketches` (the compilation of the base ref): sizes get their previous value and
/// delta, warnings their previous count and delta. Sketches without a base counterpart
/// are left unchanged.
pub fn apply_base_report(sketch_reports: &mut Vec<Sketch>, base_sketches: &[Sketch])
    requires
        base_report_in_range(old(sketch_reports)@, base_sketches@),
    ensures
        final(sketch_reports)@.len() == old(sketch_reports)@.len(),
        forall|i: int|
            0 <= i < old(sketch_reports)@.len() ==> {
                let before = #[trigger] old(sketch_reports)@[i];
                let after = final(sketch_reports)@[i];
                &&& after.name == before.name
                &&& after.compilation_success == before.compilation_success
                &&& match find_by_name(base_sketches@, before.name@) {
                    Some(b) => {
                        &&& after.sizes@ == before.sizes@.map_values(
                            |k: SketchSizeKind| size_with_base(k, b.sizes@),
                        )
                        &&& after.warnings == warnings_with_base(before.warnings, b.warnings)
                    },
                    None => after.sizes@ == before.sizes@ && after.warnings == before.warnings,
                }
            },
{
    let ghost initial = sketch_reports@;
    let mut i: usize = 0;
    while i < sketch_reports.len()
        invariant
            i <= sketch_reports@.len(),
            sketch_reports@.len() == initial.len(),
            base_report_in_range(initial, base_sketches@),
            forall|k: int| i <= k < initial.len() ==> sketch_reports@[k] == initial[k],
            forall|k: int|
                0 <= k < i ==> {
                    let before = #[trigger] initial[k];
                    let after = sketch_reports@[k];
                    &&& after.name == before.name
                    &&& after.compilation_success == before.compilation_success
                    &&& match find_by_name(base_sketches@, before.name@) {
                        Some(b) => {
                            &&& after.sizes@ == before.sizes@.map_values(
                                |k: SketchSizeKind| size_with_base(k, b.sizes@),
                            )
                            &&& after.warnings == warnings_with_base(before.warnings, b.warnings)
                        },
                        None => after.sizes@ == before.sizes@ && after.warnings
                            == before.warnings,
                    }
                },
        decreases initial.len() - i,
    {
        let found = find_index_by_name(base_sketches, &sketch_reports[i].name);
        if let Some(j) = found {
            let base_sketch = &base_sketches[j];
            assert(sketch_base_in_range(initial[i as int], *base_sketch));
            let mut new_sizes: Vec<SketchSizeKind> = Vec::new();
            let mut k: usize = 0;
            while k < sketch_reports[i].sizes.len()
                invariant
                    i < sketch_reports@.len(),
                    sketch_reports@[i as int] == initial[i as int],
                    find_by_name(base_sketches@, initial[i as int].name@) == Some(*base_sketch),
                    sketch_base_in_range(initial[i as int], *base_sketch),
                    k <= sketch_reports@[i as int].sizes@.len(),
                    new_sizes@ == sketch_reports@[i as int].sizes@.take(k as int).map_values(
                        |k: SketchSizeKind| size_with_base(k, base_sketch.sizes@),
                    ),
                decreases sketch_reports@[i as int].sizes@.len() - k,
            {
                let kind = sketch_reports[i].sizes[k];
                assert(kind == initial[i as int].sizes@[k as int]);
                let updated = match kind {
                    SketchSizeKind::Ram { size } => {
                        match find_size_of_kind(&base_sketch.sizes, false) {
                            Some(b) => {
                                let mut s = size;
                                calc_deltas(&mut s, &base_sketch.sizes[b].size());
                                SketchSizeKind::Ram { size: s }
                            },
                            None => kind,
                        }
                    },
                    SketchSizeKind::Flash { size } => {
                        match find_size_of_kind(&base_sketch.sizes, true) {
                            Some(b) => {
                                let mut s = size;
                                calc_deltas(&mut s, &base_sketch.sizes[b].size());
                                SketchSizeKind::Flash { size: s }
                            },
                            None => kind,
                        }
                    },
                };
                new_sizes.push(updated);
                k = k + 1;
                assert(new_sizes@ =~= sketch_reports@[i as int].sizes@.take(k as int).map_values(
                    |k: SketchSizeKind| size_with_base(k, base_sketch.sizes@),
                ));
            }
            assert(sketch_reports@[i as int].sizes@.take(k as int) =~= sketch_reports@[i as int].sizes@);
            let new_warnings = match (sketch_reports[i].warnings, base_sketch.warnings) {
                (Some(curr), Some(base)) => Some(
                    SketchWarnings {
                        current: curr.current,
                        previous: AbsCount { absolute: base.current.absolute },
                        delta: AbsCount { absolute: curr.current.absolute - base.current.absolute },
                    },
                ),
                (w, _) => w,
            };
            sketch_reports[i].sizes = new_sizes;
            sketch_reports[i].warnings = new_warnings;
        }
        i = i + 1;
    }
}

impl SketchSizeKind {
    /// The size held by either variant.
    pub fn size(&self) -> (r: SketchSize)
        ensures
            r == self.size_of(),
    {
        match self {
            SketchSizeKind::Ram { size } => *size,
            SketchSizeKind::Flash { size } => *size,
        }
    }
}


// ---------------------------------------------------------------------------------------
// Summary of the sizes of all sketches
// ---------------------------------------------------------------------------------------

/// Running totals of one kind of size: the maximum retained so far, the total of the known
/// current sizes, and the total of the known previous sizes (`None` while nothing is known).
pub type SizeTotals = (Option<SizeValue<u64>>, Option<int>, Option<int>);

/// Adds `value` to an optional total.
pub open spec fn add_to_total(total: Option<int>, value: int) -> Option<int> {
    match total {
        Some(t) => Some(t + value),
        None => Some(value),
    }
}

/// The totals after taking `size` into account. The maximum is replaced when none is
/// retained yet, or when both are known and the new one is larger.
pub open spec fn accumulate(acc: SizeTotals, size: SketchSize) -> SizeTotals {
    let replace_max = match acc.0 {
        None => true,
        Some(SizeValue::Known(max_known)) => match size.maximum {
            Some(SizeValue::Known(size_max)) => size_max > max_known,
            _ => false,
        },
        Some(SizeValue::NotApplicable) => false,
    };
    let max = if replace_max {
        size.maximum
    } else {
        acc.0
    };
    let current = match size.current.absolute {
        SizeValue::Known(v) => add_to_total(acc.1, v as int),
        SizeValue::NotApplicable => acc.1,
    };
    let previous = match size.previous {
        Some(p) => match p.absolute {
            SizeValue::Known(v) => add_to_total(acc.2, v as int),
            SizeValue::NotApplicable => acc.2,
        },
        None => acc.2,
    };
    (max, current, previous)
}

/// The totals of the sizes of the given kind in `sizes`, taken in order.
pub open spec fn totals_of_kind(sizes: Seq<SketchSizeKind>, flash: bool) -> SizeTotals
    decreases sizes.len(),
{
    if sizes.len() == 0 {
        (None, None, None)
    } else {
        let before = totals_of_kind(sizes.drop_last(), flash);
        if sizes.last().is_flash() == flash {
            accumulate(before, sizes.last().size_of())
        } else {
            before
        }
    }
}

/// The sizes of each sketch, in order.
pub open spec fn sketch_sizes(sketches: Seq<Sketch>) -> Seq<Seq<SketchSizeKind>> {
    sketches.map_values(|s: Sketch| s.sizes@)
}

/// All sizes of all sketches (given as the list of sizes of each sketch), in order.
pub open spec fn flat_sizes(sizes: Seq<Seq<SketchSizeKind>>) -> Seq<SketchSizeKind>
    decreases sizes.len(),
{
    if sizes.len() == 0 {
        Seq::empty()
    } else {
        flat_sizes(sizes.drop_last()) + sizes.last()
    }
}

/// The summary size built from the totals of one kind; `None` when neither a current nor
/// a previous size is known.
pub open spec fn culminate(acc: SizeTotals, flash: bool) -> Option<SketchSizeKind> {
    if acc.1 is Some || acc.2 is Some {
        let current = match acc.1 {
            Some(c) => SizeValue::Known(c as i64),
            None => SizeValue::NotApplicable,
        };
        let previous = match acc.2 {
            Some(p) => Some(SketchDeltaSize { absolute: SizeValue::Known(p as i64), relative: None }),
            None => None,
        };
        let delta = match (acc.1, acc.2) {
            (Some(c), Some(p)) => Some(
                SketchDeltaSize { absolute: SizeValue::Known((c - p) as i64), relative: None },
            ),
            _ => None,
        };
        let size = SketchSize {
            maximum: acc.0,
            current: SketchDeltaSize { absolute: current, relative: None },
            previous,
            delta,
        };
        Some(
            if flash {
                SketchSizeKind::Flash { size }
            } else {
                SketchSizeKind::Ram { size }
            },
        )
    } else {
        None
    }
}

/// An optional element as a sequence of zero or one elements.
pub open spec fn opt_seq<T>(o: Option<T>) -> Seq<T> {
    match o {
        Some(x) => seq![x],
        None => Seq::empty(),
    }
}

/// The summary of the sizes of all sketches (given as the list of sizes of each sketch):
/// the flash summary (if any) followed by the RAM summary (if any).
pub open spec fn sizes_summary(sizes: Seq<Seq<SketchSizeKind>>) -> Seq<SketchSizeKind> {
    opt_seq(culminate(totals_of_kind(flat_sizes(sizes), true), true)) + opt_seq(
        culminate(totals_of_kind(flat_sizes(sizes), false), false),
    )
}

/// Where both totals are known, their difference fits in an `i64`.
pub open spec fn difference_in_range(current: Option<int>, previous: Option<int>) -> bool {
    match (current, previous) {
        (Some(c), Some(p)) => i64::MIN <= c - p <= i64::MAX,
        _ => true,
    }
}

/// The totals fit in an `i64`.
pub open spec fn totals_in_range(acc: SizeTotals) -> bool {
    &&& (acc.1 matches Some(c) ==> i64::MIN <= c <= i64::MAX)
    &&& (acc.2 matches Some(p) ==> i64::MIN <= p <= i64::MAX)
}

/// The sizes visited before the `j`-th size of the `i`-th sketch.
pub open spec fn visited_sizes(sizes: Seq<Seq<SketchSizeKind>>, i: int, j: int) -> Seq<SketchSizeKind> {
    flat_sizes(sizes.take(i)) + sizes[i].take(j)
}

/// Every running total of [`get_sizes_summary_report`], and each final difference of the
/// totals, fits in an `i64`.
pub open spec fn summary_in_range(sizes: Seq<Seq<SketchSizeKind>>) -> bool {
    &&& forall|i: int, j: int, flash: bool|
        0 <= i < sizes.len() && 0 <= j <= sizes[i].len() ==> totals_in_range(
            #[trigger] totals_of_kind(visited_sizes(sizes, i, j), flash),
        )
    &&& forall|flash: bool|
        {
            let acc = #[trigger] totals_of_kind(flat_sizes(sizes), flash);
            totals_in_range(acc) && difference_in_range(acc.1, acc.2)
        }
}

/// Adds `size` to the running totals of its kind.
pub fn accumulate_size(
    size: &SketchSize,
    max: &mut Option<SizeValue<u64>>,
    current_total: &mut Option<i64>,
    previous_total: &mut Option<i64>,
)
    requires
        totals_in_range(
            accumulate(
                (
                    *old(max),
                    match *old(current_total) { Some(c) => Some(c as int), None => None },
                    match *old(previous_total) { Some(p) => Some(p as int), None => None },
                ),
                *size,
            ),
        ),
    ensures
        ({
            let acc = accumulate(
                (
                    *old(max),
                    match *old(current_total) { Some(c) => Some(c as int), None => None },
                    match *old(previous_total) { Some(p) => Some(p as int), None => None },
                ),
                *size,
            );
            &&& *final(max) == acc.0
            &&& match *final(current_total) { Some(c) => Some(c as int), None => None } == acc.1
            &&& match *final(previous_total) { Some(p) => Some(p as int), None => None } == acc.2
        }),
{
    let replace = match *max {
        None => true,
        Some(SizeValue::Known(max_known)) => match size.maximum {
            Some(SizeValue::Known(size_max)) => size_max > max_known,
            _ => false,
        },
        Some(SizeValue::NotApplicable) => false,
    };
    if replace {
        *max = size.maximum;
    }
    if let SizeValue::Known(value) = size.current.absolute {
        match *current_total {
            Some(total) => {
                *current_total = Some(total + value);
            },
            None => {
                *current_total = Some(value);
            },
        }
    }
    if let Some(previous) = size.previous {
        if let SizeValue::Known(value) = previous.absolute {
            match *previous_total {
                Some(total) => {
                    *previous_total = Some(total + value);
                },
                None => {
                    *previous_total = Some(value);
                },
            }
        }
    }
}

/// Builds the summary size of one kind from its totals; `None` when neither a current nor
/// a previous size is known.
pub fn culminate_sketch_size(
    maximum: Option<SizeValue<u64>>,
    current_total: Option<i64>,
    previous_total: Option<i64>,
    is_flash: bool,
) -> (r: Option<SketchSizeKind>)
    requires
        difference_in_range(total_view(current_total), total_view(previous_total)),
    ensures
        r == culminate(
            (
                maximum,
                match current_total { Some(c) => Some(c as int), None => None },
                match previous_total { Some(p) => Some(p as int), None => None },
            ),
            is_flash,
        ),
{
    if current_total.is_some() || previous_total.is_some() {
        let current = match current_total {
            Some(c) => SizeValue::Known(c),
            None => SizeValue::NotApplicable,
        };
        let previous = match previous_total {
            Some(total) => Some(SketchDeltaSize { absolute: SizeValue::Known(total), relative: None }),
            None => None,
        };
        let delta = match (current_total, previous_total) {
            (Some(curr), Some(prev)) => Some(
                SketchDeltaSize { absolute: SizeValue::Known(curr - prev), relative: None },
            ),
            _ => None,
        };
        let sketch_size = SketchSize {
            maximum,
            current: SketchDeltaSize { absolute: current, relative: None },
            previous,
            delta,
        };
        if is_flash {
            Some(SketchSizeKind::Flash { size: sketch_size })
        } else {
            Some(SketchSizeKind::Ram { size: sketch_size })
        }
    } else {
        None
    }
}

/// The view of an optional `i64` total as an optional integer.
pub open spec fn total_view(t: Option<i64>) -> Option<int> {
    match t {
        Some(v) => Some(v as int),
        None => None,
    }
}

/// Summarises the sizes of all sketches: for flash and for RAM, the total of the current
/// sizes, the total of the previous sizes, their difference, and the largest maximum.
pub fn get_sizes_summary_report(sketch_reports: &[Sketch]) -> (r: Vec<SketchSizeKind>)
    requires
        summary_in_range(sketch_sizes(sketch_reports@)),
    ensures
        r@ == sizes_summary(sketch_sizes(sketch_reports@)),
{
    let ghost sk = sketch_sizes(sketch_reports@);
    let mut flash_max: Option<SizeValue<u64>> = None;
    let mut flash_current_total: Option<i64> = None;
    let mut flash_previous_total: Option<i64> = None;
    let mut ram_max: Option<SizeValue<u64>> = None;
    let mut ram_current_total: Option<i64> = None;
    let mut ram_previous_total: Option<i64> = None;
    let mut i: usize = 0;
    assert(flat_sizes(sk.take(0)) =~= Seq::<SketchSizeKind>::empty());
    while i < sketch_reports.len()
        invariant
            sk == sketch_sizes(sketch_reports@),
            i <= sk.len(),
            summary_in_range(sk),
            (flash_max, total_view(flash_current_total), total_view(flash_previous_total))
                == totals_of_kind(flat_sizes(sk.take(i as int)), true),
            (ram_max, total_view(ram_current_total), total_view(ram_previous_total))
                == totals_of_kind(flat_sizes(sk.take(i as int)), false),
        decreases sk.len() - i,
    {
        let sizes = &sketch_reports[i].sizes;
        let mut j: usize = 0;
        assert(visited_sizes(sk, i as int, 0) =~= flat_sizes(sk.take(i as int)));
        while j < sizes.len()
            invariant
                sk == sketch_sizes(sketch_reports@),
                i < sk.len(),
                sizes@ == sk[i as int],
                j <= sizes@.len(),
                summary_in_range(sk),
                (flash_max, total_view(flash_current_total), total_view(flash_previous_total))
                    == totals_of_kind(visited_sizes(sk, i as int, j as int), true),
                (ram_max, total_view(ram_current_total), total_view(ram_previous_total))
                    == totals_of_kind(visited_sizes(sk, i as int, j as int), false),
            decreases sizes@.len() - j,
        {
            let ghost next = visited_sizes(sk, i as int, j + 1);
            assert(next.drop_last() =~= visited_sizes(sk, i as int, j as int));
            assert(next.last() == sizes@[j as int]);
            assert(totals_in_range(totals_of_kind(next, true)));
            assert(totals_in_range(totals_of_kind(next, false)));
            match &sizes[j] {
                SketchSizeKind::Flash { size } => {
                    accumulate_size(
                        size,
                        &mut flash_max,
                        &mut flash_current_total,
                        &mut flash_previous_total,
                    );
                },
                SketchSizeKind::Ram { size } => {
                    accumulate_size(
                        size,
                        &mut ram_max,
                        &mut ram_current_total,
                        &mut ram_previous_total,
                    );
                },
            }
            j = j + 1;
        }
        assert(sk.take(i + 1).drop_last() =~= sk.take(i as int));
        assert(sizes@.take(j as int) =~= sizes@);
        assert(visited_sizes(sk, i as int, j as int) =~= flat_sizes(sk.take(i + 1)));
        i = i + 1;
    }
    assert(sk.take(i as int) =~= sk);
    let mut output: Vec<SketchSizeKind> = Vec::new();
    let flash = culminate_sketch_size(flash_max, flash_current_total, flash_previous_total, true);
    if let Some(size_kind) = flash {
        output.push(size_kind);
    }
    let ram = culminate_sketch_size(ram_max, ram_current_total, ram_previous_total, false);
    if let Some(size_kind) = ram {
        output.push(size_kind);
    }
    assert(output@ =~= sizes_summary(sk));
    output
}

/// The board size recording the maximum of a summary size, of the same kind.
pub open spec fn board_size_of(k: SketchSizeKind) -> BoardSize {
    match k {
        SketchSizeKind::Flash { size } => BoardSize::Flash { maximum: size.maximum },
        SketchSizeKind::Ram { size } => BoardSize::Ram { maximum: size.maximum },
    }
}

/// The board's maximum sizes taken from a sizes summary; `None` when the summary is empty.
pub fn get_board_sizes_from_summary(sizes: &[SketchSizeKind]) -> (r: Option<Vec<BoardSize>>)
    ensures
        sizes@.len() == 0 ==> r is None,
        sizes@.len() > 0 ==> (r matches Some(v) && v@ == sizes@.map_values(
            |k: SketchSizeKind| board_size_of(k),
        )),
{
    let mut board_sizes: Vec<BoardSize> = Vec::new();
    let mut i: usize = 0;
    while i < sizes.len()
        invariant
            i <= sizes@.len(),
            board_sizes@ == sizes@.take(i as int).map_values(|k: SketchSizeKind| board_size_of(k)),
        decreases sizes@.len() - i,
    {
        let b = match sizes[i] {
            SketchSizeKind::Flash { size } => BoardSize::Flash { maximum: size.maximum },
            SketchSizeKind::Ram { size } => BoardSize::Ram { maximum: size.maximum },
        };
        board_sizes.push(b);
        i = i + 1;
        assert(board_sizes@ =~= sizes@.take(i as int).map_values(
            |k: SketchSizeKind| board_size_of(k),
        ));
    }
    if board_sizes.len() == 0 {
        None
    } else {
        assert(sizes@.take(i as int) =~= sizes@);
        Some(board_sizes)
    }
}


// ---------------------------------------------------------------------------------------
// Sizes and warnings of one compilation
// ---------------------------------------------------------------------------------------

/// The size built from the maximum and absolute values found in compiler output: the
/// maximum is N/A and the absolute size is N/A where not found, and the relative size is
/// `absolute / maximum` where both were found.
pub open spec fn size_from_captures(max_value: Option<int>, abs_value: Option<int>) -> SketchSize {
    SketchSize {
        maximum: match max_value {
            Some(m) => Some(SizeValue::Known(m as u64)),
            None => Some(SizeValue::NotApplicable),
        },
        current: SketchDeltaSize {
            absolute: match abs_value {
                Some(a) => SizeValue::Known(a as i64),
                None => SizeValue::NotApplicable,
            },
            relative: match (max_value, abs_value) {
                (Some(m), Some(a)) => Some(
                    SizeValue::Known(Ratio { numerator: a as i64, denominator: m as u64 }),
                ),
                _ => None,
            },
        },
        previous: None,
        delta: None,
    }
}

/// The flash size followed by the RAM size, as stated in compiler output.
pub open spec fn sizes_from_output(s: Seq<char>) -> Seq<SketchSizeKind> {
    let flash = flash_captures(s);
    let ram = ram_captures(s);
    seq![
        SketchSizeKind::Flash { size: size_from_captures(flash.1, flash.0) },
        SketchSizeKind::Ram { size: size_from_captures(ram.1, ram.0) },
    ]
}

/// The view of an optional `u64` as an optional integer.
pub open spec fn opt_u64_view(v: Option<u64>) -> Option<int> {
    match v {
        Some(x) => Some(x as int),
        None => None,
    }
}

/// The view of an optional `i64` as an optional integer.
pub open spec fn opt_i64_view(v: Option<i64>) -> Option<int> {
    match v {
        Some(x) => Some(x as int),
        None => None,
    }
}

/// Builds a sketch size from the maximum and absolute values found in compiler output.
pub fn mk_sketch_size_from_captures(max_value: Option<u64>, abs_value: Option<i64>) -> (r:
    SketchSize)
    ensures
        r == size_from_captures(opt_u64_view(max_value), opt_i64_view(abs_value)),
{
    let relative = match (max_value, abs_value) {
        (Some(max), Some(abs)) => Some(
            SizeValue::Known(Ratio { numerator: abs, denominator: max }),
        ),
        _ => None,
    };
    SketchSize {
        maximum: match max_value {
            Some(m) => Some(SizeValue::Known(m)),
            None => Some(SizeValue::NotApplicable),
        },
        current: SketchDeltaSize {
            absolute: match abs_value {
                Some(a) => SizeValue::Known(a),
                None => SizeValue::NotApplicable,
            },
            relative,
        },
        previous: None,
        delta: None,
    }
}

/// The flash and RAM sizes stated in the output of a successful compilation.
pub fn get_sizes_from_output(compilation_output: &str) -> (r: Vec<SketchSizeKind>)
    ensures
        r@ == sizes_from_output(compilation_output@),
{
    let (flash_abs, flash_max) = flash_sizes(compilation_output);
    let (ram_abs, ram_max) = ram_sizes(compilation_output);
    let mut size_kinds: Vec<SketchSizeKind> = Vec::new();
    size_kinds.push(
        SketchSizeKind::Flash { size: mk_sketch_size_from_captures(flash_max, flash_abs) },
    );
    size_kinds.push(SketchSizeKind::Ram { size: mk_sketch_size_from_captures(ram_max, ram_abs) });
    assert(size_kinds@ =~= sizes_from_output(compilation_output@));
    size_kinds
}

/// The warnings of one compilation: the number of GCC warnings in its output, with a
/// previous count and delta of zero.
pub fn get_warning_count_from_output(compilation_output: &str) -> (r: SketchWarnings)
    ensures
        r.current.absolute == warning_count(compilation_output@) as i32,
        r.previous.absolute == 0,
        r.delta.absolute == 0,
{
    let count = count_warnings(compilation_output);
    SketchWarnings {
        current: AbsCount { absolute: count as i32 },
        previous: AbsCount { absolute: 0 },
        delta: AbsCount { absolute: 0 },
    }
}


// ---------------------------------------------------------------------------------------
// Whether all differences and totals fit their types
// ---------------------------------------------------------------------------------------

/// Whether the difference of the two current sizes fits in an `i64` (see
/// [`deltas_in_range`]).
fn delta_fits(cur: &SketchSize, base: &SketchSize) -> (r: bool)
    ensures
        r == deltas_in_range(*cur, *base),
{
    match (cur.current.absolute, base.current.absolute) {
        (SizeValue::Known(c), SizeValue::Known(p)) => c.checked_sub(p).is_some(),
        _ => true,
    }
}

/// Whether comparing `s` with its base counterpart `b` computes only differences that fit
/// their types (see [`sketch_base_in_range`]).
fn sketch_base_fits(s: &Sketch, b: &Sketch) -> (r: bool)
    ensures
        r == sketch_base_in_range(*s, *b),
{
    let mut k: usize = 0;
    while k < s.sizes.len()
        invariant
            k <= s.sizes@.len(),
            forall|m: int|
                0 <= m < k ==> {
                    let size = (#[trigger] s.sizes@[m]).size_of();
                    match first_size_of_kind(b.sizes@, s.sizes@[m].is_flash()) {
                        Some(bs) => deltas_in_range(size, bs),
                        None => true,
                    }
                },
        decreases s.sizes.len() - k,
    {
        let size = s.sizes[k].size();
        let is_flash = match s.sizes[k] {
            SketchSizeKind::Flash { .. } => true,
            SketchSizeKind::Ram { .. } => false,
        };
        match find_size_of_kind(&b.sizes, is_flash) {
            Some(j) => {
                let bs = b.sizes[j].size();
                if !delta_fits(&size, &bs) {
                    return false;
                }
            },
            None => {},
        }
        k = k + 1;
    }
    match (s.warnings, b.warnings) {
        (Some(c), Some(w)) => c.current.absolute.checked_sub(w.current.absolute).is_some(),
        _ => true,
    }
}

/// Whether every difference computed by [`apply_base_report`] fits its type (see
/// [`base_report_in_range`]).
pub fn base_report_fits(reports: &[Sketch], base: &[Sketch]) -> (r: bool)
    ensures
        r == base_report_in_range(reports@, base@),
{
    let mut i: usize = 0;
    while i < reports.len()
        invariant
            i <= reports@.len(),
            forall|k: int|
                0 <= k < i ==> match find_by_name(base@, (#[trigger] reports@[k]).name@) {
                    Some(b) => sketch_base_in_range(reports@[k], b),
                    None => true,
                },
        decreases reports.len() - i,
    {
        match find_index_by_name(base, &reports[i].name) {
            Some(j) => {
                if !sketch_base_fits(&reports[i], &base[j]) {
                    return false;
                }
            },
            None => {},
        }
        i = i + 1;
    }
    true
}

/// Adds `value` to an optional running total, `None` when the sum leaves `i64`.
fn add_checked(total: Option<i64>, value: i64) -> (r: Option<Option<i64>>)
    ensures
        match r {
            Some(t) => total_view(t) == add_to_total(total_view(total), value as int),
            None => !(add_to_total(total_view(total), value as int) matches Some(v) && i64::MIN <= v
                <= i64::MAX),
        },
{
    match total {
        Some(t) => match t.checked_add(value) {
            Some(v) => Some(Some(v)),
            None => None,
        },
        None => Some(Some(value)),
    }
}

/// The current and previous totals after taking `size` into account, `None` when one of
/// them leaves `i64`.
fn accumulate_checked(size: &SketchSize, current: Option<i64>, previous: Option<i64>) -> (r: Option<
    (Option<i64>, Option<i64>),
>)
    ensures
        ({
            let acc = accumulate((None, total_view(current), total_view(previous)), *size);
            match r {
                Some((c, p)) => total_view(c) == acc.1 && total_view(p) == acc.2,
                None => !totals_in_range(acc),
            }
        }),
{
    let c = match size.current.absolute {
        SizeValue::Known(v) => match add_checked(current, v) {
            Some(t) => t,
            None => {
                return None;
            },
        },
        SizeValue::NotApplicable => current,
    };
    let p = match size.previous {
        Some(prev) => match prev.absolute {
            SizeValue::Known(v) => match add_checked(previous, v) {
                Some(t) => t,
                None => {
                    return None;
                },
            },
            SizeValue::NotApplicable => previous,
        },
        None => previous,
    };
    Some((c, p))
}

/// The current and previous totals (without the maximum) of a kind of size.
pub open spec fn sums_of_kind(sizes: Seq<SketchSizeKind>, flash: bool) -> (Option<int>, Option<int>) {
    (totals_of_kind(sizes, flash).1, totals_of_kind(sizes, flash).2)
}

proof fn lemma_sums_step(sizes: Seq<SketchSizeKind>, flash: bool)
    requires
        sizes.len() > 0,
    ensures
        sums_of_kind(sizes, flash) == if sizes.last().is_flash() == flash {
            let acc = accumulate(
                (None, sums_of_kind(sizes.drop_last(), flash).0, sums_of_kind(sizes.drop_last(), flash).1),
                sizes.last().size_of(),
            );
            (acc.1, acc.2)
        } else {
            sums_of_kind(sizes.drop_last(), flash)
        },
{
}

/// Whether every running total of [`get_sizes_summary_report`], and each final difference
/// of the totals, fits in an `i64` (see [`summary_in_range`]).
pub fn summary_fits(sketches: &[Sketch]) -> (r: bool)
    ensures
        r == summary_in_range(sketch_sizes(sketches@)),
{
    let ghost sk = sketch_sizes(sketches@);
    let mut flash_current: Option<i64> = None;
    let mut flash_previous: Option<i64> = None;
    let mut ram_current: Option<i64> = None;
    let mut ram_previous: Option<i64> = None;
    let mut i: usize = 0;
    assert(flat_sizes(sk.take(0)) =~= Seq::<SketchSizeKind>::empty());
    while i < sketches.len()
        invariant
            sk == sketch_sizes(sketches@),
            i <= sk.len(),
            forall|i2: int, j2: int, flash: bool|
                0 <= i2 < i && 0 <= j2 <= sk[i2].len() ==> totals_in_range(
                    #[trigger] totals_of_kind(visited_sizes(sk, i2, j2), flash),
                ),
            (total_view(flash_current), total_view(flash_previous)) == sums_of_kind(
                flat_sizes(sk.take(i as int)),
                true,
            ),
            (total_view(ram_current), total_view(ram_previous)) == sums_of_kind(
                flat_sizes(sk.take(i as int)),
                false,
            ),
            totals_in_range(totals_of_kind(flat_sizes(sk.take(i as int)), true)),
            totals_in_range(totals_of_kind(flat_sizes(sk.take(i as int)), false)),
        decreases sk.len() - i,
    {
        let sizes = &sketches[i].sizes;
        let mut j: usize = 0;
        assert(visited_sizes(sk, i as int, 0) =~= flat_sizes(sk.take(i as int)));
        while j < sizes.len()
            invariant
                sk == sketch_sizes(sketches@),
                i < sk.len(),
                sizes@ == sk[i as int],
                j <= sizes@.len(),
                forall|i2: int, j2: int, flash: bool|
                    0 <= i2 < i && 0 <= j2 <= sk[i2].len() ==> totals_in_range(
                        #[trigger] totals_of_kind(visited_sizes(sk, i2, j2), flash),
                    ),
                forall|j2: int, flash: bool|
                    0 <= j2 <= j ==> totals_in_range(
                        #[trigger] totals_of_kind(visited_sizes(sk, i as int, j2), flash),
                    ),
                (total_view(flash_current), total_view(flash_previous)) == sums_of_kind(
                    visited_sizes(sk, i as int, j as int),
                    true,
                ),
                (total_view(ram_current), total_view(ram_previous)) == sums_of_kind(
                    visited_sizes(sk, i as int, j as int),
                    false,
                ),
            decreases sizes@.len() - j,
        {
            let ghost next = visited_sizes(sk, i as int, j + 1);
            assert(next.drop_last() =~= visited_sizes(sk, i as int, j as int));
            assert(next.last() == sizes@[j as int]);
            proof {
                lemma_sums_step(next, true);
                lemma_sums_step(next, false);
            }
            match &sizes[j] {
                SketchSizeKind::Flash { size } => {
                    match accumulate_checked(size, flash_current, flash_previous) {
                        Some((c, p)) => {
                            flash_current = c;
                            flash_previous = p;
                        },
                        None => {
                            assert(!totals_in_range(totals_of_kind(next, true)));
                            return false;
                        },
                    }
                },
                SketchSizeKind::Ram { size } => {
                    match accumulate_checked(size, ram_current, ram_previous) {
                        Some((c, p)) => {
                            ram_current = c;
                            ram_previous = p;
                        },
                        None => {
                            assert(!totals_in_range(totals_of_kind(next, false)));
                            return false;
                        },
                    }
                },
            }
            assert(totals_in_range(totals_of_kind(next, true)));
            assert(totals_in_range(totals_of_kind(next, false)));
            j = j + 1;
        }
        assert(sk.take(i + 1).drop_last() =~= sk.take(i as int));
        assert(sizes@.take(j as int) =~= sizes@);
        assert(visited_sizes(sk, i as int, j as int) =~= flat_sizes(sk.take(i + 1)));
        assert(totals_in_range(totals_of_kind(visited_sizes(sk, i as int, j as int), true)));
        assert(totals_in_range(totals_of_kind(visited_sizes(sk, i as int, j as int), false)));
        i = i + 1;
    }
    assert(sk.take(i as int) =~= sk);
    let fits_flash = match (flash_current, flash_previous) {
        (Some(c), Some(p)) => c.checked_sub(p).is_some(),
        _ => true,
    };
    let fits_ram = match (ram_current, ram_previous) {
        (Some(c), Some(p)) => c.checked_sub(p).is_some(),
        _ => true,
    };
    proof {
        if !fits_flash {
            assert(!difference_in_range(
                totals_of_kind(flat_sizes(sk), true).1,
                totals_of_kind(flat_sizes(sk), true).2,
            ));
        }
        if !fits_ram {
            assert(!difference_in_range(
                totals_of_kind(flat_sizes(sk), false).1,
                totals_of_kind(flat_sizes(sk), false).2,
            ));
        }
    }
    fits_flash && fits_ram
}

// ---------------------------------------------------------------------------------------
// Laws
// ---------------------------------------------------------------------------------------

/// Comparing a size with the size of the same sketch at the base ref keeps the current
/// size and the maximum, records the base's current size as the previous size, and makes
/// the delta the difference of the two when both are known (N/A otherwise).
pub proof fn law_base_delta_is_difference(cur: SketchSize, base: SketchSize)
    requires
        deltas_in_range(cur, base),
    ensures
        with_base_deltas(cur, base).current == cur.current,
        with_base_deltas(cur, base).maximum == cur.maximum,
        with_base_deltas(cur, base).previous matches Some(p) && p.absolute
            == base.current.absolute,
        with_base_deltas(cur, base).delta matches Some(d) && match (
            cur.current.absolute,
            base.current.absolute,
        ) {
            (SizeValue::Known(c), SizeValue::Known(p)) => d.absolute matches SizeValue::Known(
                dv,
            ) && dv == c - p,
            _ => d.absolute is NotApplicable,
        },
        with_base_deltas(cur, base).delta matches Some(d) && match (d.absolute, cur.maximum) {
            (SizeValue::Known(dv), Some(SizeValue::Known(m))) => d.relative == Some(
                SizeValue::Known(Ratio { numerator: dv, denominator: m }),
            ),
            _ => d.relative == Some(SizeValue::<Ratio>::NotApplicable),
        },
        with_base_deltas(cur, base).previous matches Some(p) && p.relative is None,
{
}

/// Comparing a sketch's size with the base sizes keeps its kind (flash or RAM); when the
/// base has a size of that kind, the result is the comparison with the first such size,
/// and otherwise the size is left as it was.
pub proof fn law_size_with_base_keeps_kind(k: SketchSizeKind, base_sizes: Seq<SketchSizeKind>)
    ensures
        size_with_base(k, base_sizes).is_flash() == k.is_flash(),
        match first_size_of_kind(base_sizes, k.is_flash()) {
            Some(b) => size_with_base(k, base_sizes).size_of() == with_base_deltas(k.size_of(), b),
            None => size_with_base(k, base_sizes) == k,
        },
{
}

/// Comparing warnings with the base compilation's warnings keeps the current count,
/// records the base's count as the previous count, and makes the delta their difference.
pub proof fn law_warnings_delta_is_difference(cur: SketchWarnings, base: SketchWarnings)
    requires
        i32::MIN <= cur.current.absolute - base.current.absolute <= i32::MAX,
    ensures
        warnings_with_base(Some(cur), Some(base)) matches Some(w) && w.current == cur.current
            && w.previous.absolute == base.current.absolute && w.delta.absolute
            == w.current.absolute - w.previous.absolute,
        warnings_with_base(Some(cur), None) == Some(cur),
        warnings_with_base(None, Some(base)) is None,
{
}

/// Comparing with the same base twice gives what comparing once gives: the comparison
/// reads only the current sizes and counts, which it leaves as they are.
pub proof fn law_base_comparison_idempotent(
    k: SketchSizeKind,
    base_sizes: Seq<SketchSizeKind>,
    w: Option<SketchWarnings>,
    base_w: Option<SketchWarnings>,
)
    ensures
        size_with_base(size_with_base(k, base_sizes), base_sizes) == size_with_base(k, base_sizes),
        warnings_with_base(warnings_with_base(w, base_w), base_w) == warnings_with_base(w, base_w),
{
}

/// A base sketch is found by name wherever it stands in the base list: the lookup gives the
/// first base sketch with that name, and gives nothing only when no base sketch has it.
pub proof fn law_find_by_name_first_match(base: Seq<Sketch>, name: Seq<char>)
    ensures
        match find_by_name(base, name) {
            Some(b) => exists|j: int|
                0 <= j < base.len() && #[trigger] base[j] == b && b.name@ == name && forall|k: int|
                    0 <= k < j ==> (#[trigger] base[k]).name@ != name,
            None => forall|j: int| 0 <= j < base.len() ==> (#[trigger] base[j]).name@ != name,
        },
    decreases base.len(),
{
    if base.len() > 0 {
        let rest = base.drop_first();
        law_find_by_name_first_match(rest, name);
        if base[0].name@ != name {
            match find_by_name(rest, name) {
                Some(b) => {
                    let j = choose|j: int|
                        0 <= j < rest.len() && #[trigger] rest[j] == b && b.name@ == name && forall|
                            k: int,
                        | 0 <= k < j ==> (#[trigger] rest[k]).name@ != name;
                    assert(base[j + 1] == b);
                    assert forall|k: int| 0 <= k < j + 1 implies (#[trigger] base[k]).name@ != name by {
                        if k > 0 {
                            assert(base[k] == rest[k - 1]);
                        }
                    }
                },
                None => {
                    assert forall|j: int| 0 <= j < base.len() implies (#[trigger] base[j]).name@ != name by {
                        if j > 0 {
                            assert(base[j] == rest[j - 1]);
                        }
                    }
                },
            }
        } else {
            assert(base[0] == base[0]);
        }
    }
}

/// A base size of a kind is found wherever it stands among the base sizes: the lookup gives
/// the first size of that kind, and gives nothing only when there is no size of that kind.
pub proof fn law_first_size_of_kind_first_match(sizes: Seq<SketchSizeKind>, flash: bool)
    ensures
        match first_size_of_kind(sizes, flash) {
            Some(z) => exists|j: int|
                0 <= j < sizes.len() && (#[trigger] sizes[j]).is_flash() == flash && sizes[j].size_of()
                    == z && forall|k: int| 0 <= k < j ==> (#[trigger] sizes[k]).is_flash() != flash,
            None => forall|j: int| 0 <= j < sizes.len() ==> (#[trigger] sizes[j]).is_flash() != flash,
        },
    decreases sizes.len(),
{
    if sizes.len() > 0 {
        let rest = sizes.drop_first();
        law_first_size_of_kind_first_match(rest, flash);
        if sizes[0].is_flash() != flash {
            match first_size_of_kind(rest, flash) {
                Some(z) => {
                    let j = choose|j: int|
                        0 <= j < rest.len() && (#[trigger] rest[j]).is_flash() == flash
                            && rest[j].size_of() == z && forall|k: int|
                            0 <= k < j ==> (#[trigger] rest[k]).is_flash() != flash;
                    assert(sizes[j + 1] == rest[j]);
                    assert forall|k: int| 0 <= k < j + 1 implies (#[trigger] sizes[k]).is_flash() != flash by {
                        if k > 0 {
                            assert(sizes[k] == rest[k - 1]);
                        }
                    }
                },
                None => {
                    assert forall|j: int| 0 <= j < sizes.len() implies (#[trigger] sizes[j]).is_flash()
                        != flash by {
                        if j > 0 {
                            assert(sizes[j] == rest[j - 1]);
                        }
                    }
                },
            }
        } else {
            assert(sizes[0].is_flash() == flash);
        }
    }
}

/// The sizes read from compiler output are the flash size then the RAM size; in each, the
/// relative current size is the absolute size over the maximum where both are known, and
/// there is none otherwise.
pub proof fn law_relative_size_is_absolute_over_maximum(s: Seq<char>)
    ensures
        sizes_from_output(s).len() == 2,
        sizes_from_output(s)[0].is_flash(),
        !sizes_from_output(s)[1].is_flash(),
        forall|i: int|
            0 <= i < 2 ==> {
                let z = (#[trigger] sizes_from_output(s)[i]).size_of();
                match (z.current.absolute, z.maximum) {
                    (SizeValue::Known(a), Some(SizeValue::Known(m))) => z.current.relative == Some(
                        SizeValue::Known(Ratio { numerator: a, denominator: m }),
                    ),
                    _ => z.current.relative is None,
                }
            },
{
}

/// A size alone: its totals are its own known current and previous values.
pub proof fn law_totals_of_one_size(k: SketchSizeKind)
    ensures
        totals_of_kind(seq![k], k.is_flash()).1 == match k.size_of().current.absolute {
            SizeValue::Known(v) => Some(v as int),
            SizeValue::NotApplicable => None::<int>,
        },
        totals_of_kind(seq![k], k.is_flash()).2 == match k.size_of().previous {
            Some(p) => match p.absolute {
                SizeValue::Known(v) => Some(v as int),
                SizeValue::NotApplicable => None::<int>,
            },
            None => None::<int>,
        },
        totals_of_kind(seq![k], !k.is_flash()) == (
            None::<SizeValue<u64>>,
            None::<int>,
            None::<int>,
        ),
{
    assert(seq![k].drop_last() =~= Seq::<SketchSizeKind>::empty());
    assert(seq![k].last() == k);
    assert(totals_of_kind(Seq::<SketchSizeKind>::empty(), true) == (
        None::<SizeValue<u64>>,
        None::<int>,
        None::<int>,
    ));
    assert(totals_of_kind(Seq::<SketchSizeKind>::empty(), false) == (
        None::<SizeValue<u64>>,
        None::<int>,
        None::<int>,
    ));
}

proof fn lemma_no_size_of_kind(xs: Seq<SketchSizeKind>, flash: bool)
    requires
        forall|j: int| 0 <= j < xs.len() ==> (#[trigger] xs[j]).is_flash() != flash,
    ensures
        totals_of_kind(xs, flash) == (None::<SizeValue<u64>>, None::<int>, None::<int>),
    decreases xs.len(),
{
    if xs.len() > 0 {
        let rest = xs.drop_last();
        assert forall|j: int| 0 <= j < rest.len() implies (#[trigger] rest[j]).is_flash() != flash by {
            assert(rest[j] == xs[j]);
        }
        lemma_no_size_of_kind(rest, flash);
        assert(xs[xs.len() - 1].is_flash() != flash);
    }
}

/// The maximum retained for a kind is absent or is the maximum of a size of that kind.
proof fn lemma_maximum_from_own_kind(xs: Seq<SketchSizeKind>, flash: bool)
    ensures
        totals_of_kind(xs, flash).0 is None || exists|k: int|
            0 <= k < xs.len() && (#[trigger] xs[k]).is_flash() == flash && xs[k].size_of().maximum
                == totals_of_kind(xs, flash).0,
    decreases xs.len(),
{
    if xs.len() > 0 {
        let rest = xs.drop_last();
        lemma_maximum_from_own_kind(rest, flash);
        let n = xs.len() - 1;
        if totals_of_kind(xs, flash).0 != totals_of_kind(rest, flash).0 {
            assert(xs[n].is_flash() == flash);
            assert(xs[n].size_of().maximum == totals_of_kind(xs, flash).0);
        } else if totals_of_kind(rest, flash).0 is Some {
            let k = choose|k: int|
                0 <= k < rest.len() && (#[trigger] rest[k]).is_flash() == flash
                    && rest[k].size_of().maximum == totals_of_kind(rest, flash).0;
            assert(xs[k] == rest[k]);
        }
    }
}

/// Each entry of the summary is of its own kind throughout: its maximum is absent or the
/// maximum of a size of that kind (the largest one when every size of that kind states a
/// known maximum), and its current and previous totals are those of the sizes of that kind.
pub proof fn law_summary_entries_of_own_kind(sizes: Seq<Seq<SketchSizeKind>>)
    ensures
        forall|i: int|
            0 <= i < sizes_summary(sizes).len() ==> {
                let e = #[trigger] sizes_summary(sizes)[i];
                let all = flat_sizes(sizes);
                let flash = e.is_flash();
                &&& (e.size_of().maximum is None || exists|k: int|
                    0 <= k < all.len() && (#[trigger] all[k]).is_flash() == flash
                        && all[k].size_of().maximum == e.size_of().maximum)
                &&& ((forall|k: int|
                    0 <= k < all.len() && (#[trigger] all[k]).is_flash() == flash
                        ==> all[k].size_of().maximum matches Some(SizeValue::Known(_))) ==> (
                e.size_of().maximum matches Some(SizeValue::Known(m)) && forall|k: int|
                    0 <= k < all.len() && (#[trigger] all[k]).is_flash() == flash ==> known_maximum(
                        all[k],
                    ) <= m))
                &&& match totals_of_kind(all, flash).1 {
                    Some(c) => e.size_of().current.absolute == SizeValue::Known(c as i64),
                    None => e.size_of().current.absolute == SizeValue::<i64>::NotApplicable,
                }
                &&& match totals_of_kind(all, flash).2 {
                    Some(p) => e.size_of().previous == Some(
                        SketchDeltaSize { absolute: SizeValue::Known(p as i64), relative: None },
                    ),
                    None => e.size_of().previous is None,
                }
            },
{
    let all = flat_sizes(sizes);
    lemma_maximum_from_own_kind(all, true);
    lemma_maximum_from_own_kind(all, false);
    let summary = sizes_summary(sizes);
    assert forall|i: int| 0 <= i < summary.len() implies {
        let e = #[trigger] summary[i];
        let flash = e.is_flash();
        (forall|k: int|
            0 <= k < all.len() && (#[trigger] all[k]).is_flash() == flash
                ==> all[k].size_of().maximum matches Some(SizeValue::Known(_))) ==> (
        e.size_of().maximum matches Some(SizeValue::Known(m)) && forall|k: int|
            0 <= k < all.len() && (#[trigger] all[k]).is_flash() == flash ==> known_maximum(all[k])
                <= m)
    } by {
        let flash = summary[i].is_flash();
        assert(culminate(totals_of_kind(all, flash), flash) == Some(summary[i]));
        if forall|k: int|
            0 <= k < all.len() && (#[trigger] all[k]).is_flash() == flash
                ==> all[k].size_of().maximum matches Some(SizeValue::Known(_)) {
            law_summary_maximum_is_largest(all, flash);
            if totals_of_kind(all, flash).0 is None {
                lemma_no_size_of_kind(all, flash);
            }
        }
    }
    assert forall|i: int| 0 <= i < summary.len() implies {
        let e = #[trigger] summary[i];
        let flash = e.is_flash();
        &&& (e.size_of().maximum is None || exists|k: int|
            0 <= k < all.len() && (#[trigger] all[k]).is_flash() == flash
                && all[k].size_of().maximum == e.size_of().maximum)
        &&& match totals_of_kind(all, flash).1 {
            Some(c) => e.size_of().current.absolute == SizeValue::Known(c as i64),
            None => e.size_of().current.absolute == SizeValue::<i64>::NotApplicable,
        }
        &&& match totals_of_kind(all, flash).2 {
            Some(p) => e.size_of().previous == Some(
                SketchDeltaSize { absolute: SizeValue::Known(p as i64), relative: None },
            ),
            None => e.size_of().previous is None,
        }
    } by {
        let flash = summary[i].is_flash();
        assert(culminate(totals_of_kind(all, flash), flash) == Some(summary[i]));
    }
}

/// Two optional totals added together (an absent total adds nothing).
pub open spec fn combine_totals(a: Option<int>, b: Option<int>) -> Option<int> {
    match (a, b) {
        (Some(x), Some(y)) => Some(x + y),
        (Some(x), None) => Some(x),
        (None, y) => y,
    }
}

/// The current and previous totals of a summary do not depend on how the sizes are split:
/// the totals of `xs` followed by `ys` are those of `xs` plus those of `ys`.
pub proof fn law_summary_totals_split(xs: Seq<SketchSizeKind>, ys: Seq<SketchSizeKind>, flash: bool)
    ensures
        totals_of_kind(xs + ys, flash).1 == combine_totals(
            totals_of_kind(xs, flash).1,
            totals_of_kind(ys, flash).1,
        ),
        totals_of_kind(xs + ys, flash).2 == combine_totals(
            totals_of_kind(xs, flash).2,
            totals_of_kind(ys, flash).2,
        ),
    decreases ys.len(),
{
    if ys.len() == 0 {
        assert(xs + ys =~= xs);
    } else {
        law_summary_totals_split(xs, ys.drop_last(), flash);
        assert((xs + ys).drop_last() =~= xs + ys.drop_last());
        assert((xs + ys).last() == ys.last());
    }
}

/// Where a size has both a previous size and a delta, the three sizes are known and the
/// delta is the current size minus the previous one.
pub open spec fn delta_is_difference(s: SketchSize) -> bool {
    match (s.previous, s.delta) {
        (Some(p), Some(d)) => match (s.current.absolute, p.absolute, d.absolute) {
            (SizeValue::Known(c), SizeValue::Known(pv), SizeValue::Known(dv)) => dv == c - pv,
            _ => false,
        },
        _ => true,
    }
}

/// The maximum of a size, when it is known (0 otherwise).
pub open spec fn known_maximum(k: SketchSizeKind) -> u64 {
    match k.size_of().maximum {
        Some(SizeValue::Known(m)) => m,
        _ => 0,
    }
}

/// When every size of a kind states a known maximum, the summary's maximum of that kind is
/// the largest of them (and absent only when there is no size of that kind).
pub proof fn law_summary_maximum_is_largest(xs: Seq<SketchSizeKind>, flash: bool)
    requires
        forall|i: int|
            0 <= i < xs.len() && (#[trigger] xs[i]).is_flash() == flash ==> xs[i].size_of().maximum
                matches Some(SizeValue::Known(_)),
    ensures
        match totals_of_kind(xs, flash).0 {
            None => forall|i: int| 0 <= i < xs.len() ==> (#[trigger] xs[i]).is_flash() != flash,
            Some(SizeValue::Known(m)) => {
                &&& forall|i: int|
                    0 <= i < xs.len() && (#[trigger] xs[i]).is_flash() == flash ==> known_maximum(
                        xs[i],
                    ) <= m
                &&& exists|i: int|
                    0 <= i < xs.len() && (#[trigger] xs[i]).is_flash() == flash && known_maximum(
                        xs[i],
                    ) == m
            },
            Some(SizeValue::NotApplicable) => false,
        },
    decreases xs.len(),
{
    if xs.len() > 0 {
        let rest = xs.drop_last();
        let n = xs.len() - 1;
        assert forall|i: int|
            0 <= i < rest.len() && (#[trigger] rest[i]).is_flash() == flash implies rest[i].size_of().maximum
            matches Some(SizeValue::Known(_)) by {
            assert(rest[i] == xs[i]);
        }
        law_summary_maximum_is_largest(rest, flash);
        let before = totals_of_kind(rest, flash).0;
        if xs[n].is_flash() == flash {
            assert(xs[n].size_of().maximum matches Some(SizeValue::Known(_)));
            match before {
                None => {
                    assert forall|i: int|
                        0 <= i < xs.len() && (#[trigger] xs[i]).is_flash() == flash implies known_maximum(
                            xs[i],
                        ) <= known_maximum(xs[n]) by {
                        if i < n {
                            assert(rest[i] == xs[i]);
                        }
                    }
                },
                Some(SizeValue::Known(m)) => {
                    let w = choose|i: int|
                        0 <= i < rest.len() && (#[trigger] rest[i]).is_flash() == flash && known_maximum(
                            rest[i],
                        ) == m;
                    assert(xs[w] == rest[w]);
                    assert forall|i: int|
                        0 <= i < xs.len() && (#[trigger] xs[i]).is_flash() == flash implies known_maximum(
                            xs[i],
                        ) <= if known_maximum(xs[n]) > m {
                            known_maximum(xs[n])
                        } else {
                            m
                        } by {
                        if i < n {
                            assert(rest[i] == xs[i]);
                        }
                    }
                },
                Some(SizeValue::NotApplicable) => {},
            }
        } else {
            match before {
                None => {
                    assert forall|i: int| 0 <= i < xs.len() implies (#[trigger] xs[i]).is_flash() != flash by {
                        if i < n {
                            assert(rest[i] == xs[i]);
                        }
                    }
                },
                Some(SizeValue::Known(m)) => {
                    let w = choose|i: int|
                        0 <= i < rest.len() && (#[trigger] rest[i]).is_flash() == flash && known_maximum(
                            rest[i],
                        ) == m;
                    assert(xs[w] == rest[w]);
                    assert forall|i: int|
                        0 <= i < xs.len() && (#[trigger] xs[i]).is_flash() == flash implies known_maximum(
                            xs[i],
                        ) <= m by {
                        assert(rest[i] == xs[i]);
                    }
                },
                Some(SizeValue::NotApplicable) => {},
            }
        }
    }
}

/// The summary holds at most one flash size (first) and one RAM size (after it), and in
/// each the delta is the current total minus the previous total, when both are known.
pub proof fn law_summary_delta_is_difference(sizes: Seq<Seq<SketchSizeKind>>)
    requires
        summary_in_range(sizes),
    ensures
        sizes_summary(sizes).len() <= 2,
        forall|i: int|
            0 <= i < sizes_summary(sizes).len() ==> ((#[trigger] sizes_summary(sizes)[i]).is_flash()
                <==> (i == 0 && culminate(totals_of_kind(flat_sizes(sizes), true), true) is Some)),
        forall|i: int|
            0 <= i < sizes_summary(sizes).len() ==> {
                let s = (#[trigger] sizes_summary(sizes)[i]).size_of();
                delta_is_difference(s)
            },
{
    let f = totals_of_kind(flat_sizes(sizes), true);
    let r = totals_of_kind(flat_sizes(sizes), false);
    assert(totals_in_range(f) && totals_in_range(r));
    assert(difference_in_range(f.1, f.2) && difference_in_range(r.1, r.2));
    let summary = sizes_summary(sizes);
    assert forall|i: int| 0 <= i < summary.len() implies delta_is_difference(
        (#[trigger] summary[i]).size_of(),
    ) by {
        let acc = if summary[i].is_flash() { f } else { r };
        assert(culminate(acc, summary[i].is_flash()) == Some(summary[i]));
        assert(totals_in_range(acc));
        if let (Some(c), Some(p)) = (acc.1, acc.2) {
            assert(i64::MIN <= c - p <= i64::MAX);
            assert((c as i64) == c && (p as i64) == p && ((c - p) as i64) == c - p);
        }
    }
}

} // verus!
