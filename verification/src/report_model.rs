//! The data model of a compilation report: sketches, their sizes and warnings, the board
//! they were compiled for, and the report as a whole.
//!
//! Relative sizes are kept as exact fractions ([`Ratio`]); whoever serialises a report
//! turns a fraction into the floating-point number that the JSON format carries.
use vstd::prelude::*;

verus! {

/// A size that is either known or "not applicable" (N/A).
#[derive(Clone, Copy, Debug, PartialEq, Eq, Structural)]
pub enum SizeValue<T> {
    /// Represents a "Not Applicable" (N/A) value.
    NotApplicable,
    /// Represents a known value.
    Known(T),
}

impl<T> Default for SizeValue<T> {
    fn default() -> (r: Self)
        ensures
            r == SizeValue::<T>::NotApplicable,
    {
        SizeValue::NotApplicable
    }
}

/// An exact fraction `numerator / denominator`, the value of a relative size.
#[derive(Clone, Copy, Debug, PartialEq, Eq, Structural)]
pub struct Ratio {
    /// The (possibly negative) numerator.
    pub numerator: i64,
    /// The denominator.
    pub denominator: u64,
}

/// An absolute size and, when one is known, the size relative to a maximum.
#[derive(Clone, Copy, Debug, PartialEq, Eq, Structural)]
pub struct SketchDeltaSize {
    /// The absolute compilation size value ("absolute" as in "not relative"; may be negative).
    pub absolute: SizeValue<i64>,
    /// The relative compilation size, if any.
    pub relative: Option<SizeValue<Ratio>>,
}

/// The size of one kind of memory used by a compiled sketch.
#[derive(Clone, Copy, Debug, PartialEq, Eq, Structural)]
pub struct SketchSize {
    /// The maximum size available on the board.
    pub maximum: Option<SizeValue<u64>>,
    /// The current compilation size.
    pub current: SketchDeltaSize,
    /// The previous compilation size, if a previous compilation was performed.
    pub previous: Option<SketchDeltaSize>,
    /// The change from `previous` to `current`, if a previous compilation was performed.
    pub delta: Option<SketchDeltaSize>,
}

/// The size value used where nothing is known.
pub open spec fn blank_delta_size() -> SketchDeltaSize {
    SketchDeltaSize { absolute: SizeValue::NotApplicable, relative: None }
}

/// The size used where nothing is known.
pub open spec fn blank_size() -> SketchSize {
    SketchSize { maximum: None, current: blank_delta_size(), previous: None, delta: None }
}

impl Default for SketchDeltaSize {
    fn default() -> (r: Self)
        ensures
            r == blank_delta_size(),
    {
        SketchDeltaSize { absolute: SizeValue::NotApplicable, relative: None }
    }
}

impl Default for SketchSize {
    fn default() -> (r: Self)
        ensures
            r == blank_size(),
    {
        SketchSize {
            maximum: None,
            current: SketchDeltaSize { absolute: SizeValue::NotApplicable, relative: None },
            previous: None,
            delta: None,
        }
    }
}

/// The size of a sketch, tagged with the kind of memory it describes.
#[derive(Clone, Copy, Debug, PartialEq, Eq, Structural)]
pub enum SketchSizeKind {
    /// The size of "RAM for global variables".
    Ram { size: SketchSize },
    /// The size of flash memory.
    Flash { size: SketchSize },
}

impl SketchSizeKind {
    /// The size held by either variant.
    pub open spec fn size_of(self) -> SketchSize {
        match self {
            SketchSizeKind::Ram { size } => size,
            SketchSizeKind::Flash { size } => size,
        }
    }

    /// Whether this is the flash variant.
    pub open spec fn is_flash(self) -> bool {
        self is Flash
    }
}

/// A count of warnings ("absolute" as in "not relative"; may be negative).
#[derive(Clone, Copy, Debug, PartialEq, Eq, Structural)]
pub struct AbsCount {
    /// The count.
    pub absolute: i32,
}

impl Default for AbsCount {
    fn default() -> (r: Self)
        ensures
            r.absolute == 0,
    {
        AbsCount { absolute: 0 }
    }
}

/// The number of warnings of one sketch's compilation.
#[derive(Clone, Copy, Debug, PartialEq, Eq, Structural)]
pub struct SketchWarnings {
    /// The number of warnings of the latest compilation.
    pub current: AbsCount,
    /// The number of warnings of the previous compilation.
    pub previous: AbsCount,
    /// The change from `previous` to `current`.
    pub delta: AbsCount,
}

/// The report about one compiled sketch.
#[derive(Debug)]
pub struct Sketch {
    /// The path of the sketch, relative to the project's root directory.
    pub name: String,
    /// Whether the sketch compiled successfully.
    pub compilation_success: bool,
    /// The compile sizes of the sketch (typically flash and RAM).
    pub sizes: Vec<SketchSizeKind>,
    /// The number of compilation warnings, when the warnings report is enabled.
    pub warnings: Option<SketchWarnings>,
}

/// The maximum capacity of one kind of memory of a board.
#[derive(Clone, Copy, Debug, PartialEq, Eq, Structural)]
pub enum BoardSize {
    /// The maximum size of "RAM for global variables".
    Ram { maximum: Option<SizeValue<u64>> },
    /// The maximum size of flash memory.
    Flash { maximum: Option<SizeValue<u64>> },
}

impl BoardSize {
    /// The maximum held by either variant.
    pub open spec fn maximum_of(self) -> Option<SizeValue<u64>> {
        match self {
            BoardSize::Ram { maximum } => maximum,
            BoardSize::Flash { maximum } => maximum,
        }
    }

    /// Whether the board's maximum size is defined.
    pub fn has_maximum(&self) -> (r: bool)
        ensures
            r == self.maximum_of() is Some,
    {
        match self {
            BoardSize::Ram { maximum } => maximum.is_some(),
            BoardSize::Flash { maximum } => maximum.is_some(),
        }
    }
}

/// The compilation context of one board: its FQBN, the compiled sketches and its sizes.
#[derive(Debug)]
pub struct Board {
    /// The board's fully qualified board name (FQBN).
    pub board: String,
    /// The compiled sketches.
    pub sketches: Vec<Sketch>,
    /// The board's maximum capacity of memory and flash.
    pub sizes: Option<Vec<BoardSize>>,
}

/// A report about the compilation of sketches at one commit.
#[derive(Debug)]
pub struct Report {
    /// The boards targeted when compiling sketches.
    pub boards: Vec<Board>,
    /// The SHA of the commit that was compiled.
    pub commit_hash: String,
    /// The URL of that commit.
    pub commit_url: String,
}

/// A board's entry has what a report needs: a non-empty list of sizes, each with a maximum.
pub open spec fn board_is_complete(b: Board) -> bool {
    &&& b.sizes is Some
    &&& b.sizes.unwrap()@.len() > 0
    &&& forall|j: int| 0 <= j < b.sizes.unwrap()@.len() ==> (#[trigger] b.sizes.unwrap()@[j]).maximum_of() is Some
}

/// A report has enough data to form usable feedback: at least one board, and every board
/// complete.
pub open spec fn report_is_valid(r: Report) -> bool {
    &&& r.boards@.len() > 0
    &&& forall|i: int| 0 <= i < r.boards@.len() ==> board_is_complete(#[trigger] r.boards@[i])
}

impl Report {
    /// Ensures all needed data is present (at least one board, and every board with a
    /// non-empty list of sizes that all have a maximum).
    pub fn is_valid(&self) -> (r: bool)
        ensures
            r == report_is_valid(*self),
    {
        if self.boards.len() == 0 {
            return false;
        }
        let mut i: usize = 0;
        while i < self.boards.len()
            invariant
                i <= self.boards@.len(),
                forall|k: int| 0 <= k < i ==> board_is_complete(#[trigger] self.boards@[k]),
            decreases self.boards.len() - i,
        {
            let board = &self.boards[i];
            match &board.sizes {
                None => {
                    return false;
                },
                Some(sizes) => {
                    if sizes.len() == 0 {
                        return false;
                    }
                    let mut j: usize = 0;
                    while j < sizes.len()
                        invariant
                            j <= sizes@.len(),
                            i < self.boards@.len(),
                            *board == self.boards@[i as int],
                            board.sizes == Some(*sizes),
                            forall|k: int| 0 <= k < i ==> board_is_complete(#[trigger] self.boards@[k]),
                            forall|k: int| 0 <= k < j ==> (#[trigger] sizes@[k]).maximum_of() is Some,
                        decreases sizes.len() - j,
                    {
                        if !sizes[j].has_maximum() {
                            assert(!board_is_complete(self.boards@[i as int]));
                            return false;
                        }
                        j = j + 1;
                    }
                },
            }
            i = i + 1;
        }
        true
    }
}

} // verus!
