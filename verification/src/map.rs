//! The map model: a rectangular grid of terrain cells and its point queries.

use vstd::prelude::*;
use crate::terrain::Field;

verus! {

/// Side length of the map that `CurrentMap::default` builds.
pub const DEFAULT_SIDE: u32 = 10;

/// A cell coordinate: `x` counts columns from the left, `y` counts rows.
#[derive(Clone, Copy, Debug, PartialEq, Eq, Structural)]
pub struct GridPos {
    pub x: u32,
    pub y: u32,
}

impl GridPos {
    /// The coordinate with the given column and row.
    pub fn new(x: u32, y: u32) -> (pos: Self)
        ensures
            pos.x == x,
            pos.y == y,
    {
        GridPos { x, y }
    }
}

/// Why a map could not be built or read.
#[derive(Clone, Copy, Debug, PartialEq, Eq, Structural)]
pub enum MapError {
    /// The number of cells handed in is not height times width.
    CellCountMismatch,
    /// The coordinate lies outside the map on at least one axis.
    OutOfBounds,
}

/// The mathematical model of a map: its dimensions and its cells, stored row
/// by row, each row `width` cells long.
pub struct MapView {
    pub height: nat,
    pub width: nat,
    pub cells: Seq<Field>,
}

impl MapView {
    /// A map holds exactly one cell per coordinate.
    pub open spec fn wf(self) -> bool {
        self.cells.len() == self.height * self.width
    }

    /// Both components of the coordinate lie inside the map.
    pub open spec fn in_bounds(self, x: int, y: int) -> bool {
        0 <= x < self.width && 0 <= y < self.height
    }

    /// The slot of `cells` that belongs to the coordinate `(x, y)`.
    pub open spec fn index_of(self, x: int, y: int) -> int {
        x + y * self.width
    }

    /// The terrain at the coordinate `(x, y)`.
    pub open spec fn at(self, x: int, y: int) -> Field
        recommends
            self.wf(),
            self.in_bounds(x, y),
    {
        self.cells[self.index_of(x, y)]
    }

    /// The map of the given dimensions whose every cell is `field`.
    pub open spec fn uniform(height: nat, width: nat, field: Field) -> MapView {
        MapView { height, width, cells: Seq::new(height * width, |i: int| field) }
    }

    /// Every coordinate inside a well-formed map has a slot in `cells`.
    pub proof fn lemma_index_in_range(self, x: int, y: int)
        requires
            self.wf(),
            self.in_bounds(x, y),
        ensures
            0 <= self.index_of(x, y) < self.cells.len(),
    {
        let w = self.width as int;
        let h = self.height as int;
        assert(0 <= y * w) by (nonlinear_arith)
            requires
                0 <= y,
                0 <= w,
        ;
        assert(y * w + w <= h * w) by (nonlinear_arith)
            requires
                0 <= y < h,
                0 <= w,
        ;
    }

    /// Two different coordinates inside a map never share a slot, whatever the
    /// map's proportions.
    pub proof fn lemma_index_injective(self, x1: int, y1: int, x2: int, y2: int)
        requires
            self.in_bounds(x1, y1),
            self.in_bounds(x2, y2),
            self.index_of(x1, y1) == self.index_of(x2, y2),
        ensures
            x1 == x2,
            y1 == y2,
    {
        let w = self.width as int;
        if y1 < y2 {
            assert(y1 * w + w <= y2 * w) by (nonlinear_arith)
                requires
                    y1 < y2,
                    0 <= w,
            ;
        } else if y2 < y1 {
            assert(y2 * w + w <= y1 * w) by (nonlinear_arith)
                requires
                    y2 < y1,
                    0 <= w,
            ;
        }
    }

    /// Every coordinate inside a uniform map holds the terrain it was filled with.
    pub proof fn lemma_uniform_at(height: nat, width: nat, field: Field, x: int, y: int)
        requires
            Self::uniform(height, width, field).in_bounds(x, y),
        ensures
            Self::uniform(height, width, field).wf(),
            Self::uniform(height, width, field).at(x, y) == field,
    {
        Self::uniform(height, width, field).lemma_index_in_range(x, y);
    }
}

/// The map in play: `height` rows of `width` terrain cells each.
#[derive(Debug)]
pub struct CurrentMap {
    height: u32,
    width: u32,
    fields: Vec<Field>,
}

impl View for CurrentMap {
    type V = MapView;

    closed spec fn view(&self) -> MapView {
        MapView { height: self.height as nat, width: self.width as nat, cells: self.fields@ }
    }
}

impl Default for CurrentMap {
    /// A square map of side `DEFAULT_SIDE` on which every cell is passable.
    fn default() -> (map: Self)
        ensures
            map@ == MapView::uniform(DEFAULT_SIDE as nat, DEFAULT_SIDE as nat, Field::Passable),
            forall|x: int, y: int|
                map@.in_bounds(x, y) ==> #[trigger] map@.at(x, y) == Field::Passable,
    {
        let cells: usize = (DEFAULT_SIDE * DEFAULT_SIDE) as usize;
        let fields: Vec<Field> = vec![Field::Passable; cells];
        assert(fields@ =~= MapView::uniform(10, 10, Field::Passable).cells);
        let map = CurrentMap { height: DEFAULT_SIDE, width: DEFAULT_SIDE, fields };
        assert forall|x: int, y: int| map@.in_bounds(x, y) implies #[trigger] map@.at(x, y)
            == Field::Passable by {
            MapView::lemma_uniform_at(10, 10, Field::Passable, x, y);
        }
        map
    }
}

impl CurrentMap {
    /// Holds of every map value: the cell count matches the dimensions.
    #[verifier::type_invariant]
    pub open spec fn inv(self) -> bool {
        self@.wf()
    }

    /// Builds a map from its dimensions and its cells, given row by row.
    /// The cell count must be `height` times `width`; any other is refused.
    pub fn new(height: u32, width: u32, fields: Vec<Field>) -> (made: Result<Self, MapError>)
        ensures
            fields@.len() == height * width ==> made is Ok && made->Ok_0@ == (MapView {
                height: height as nat,
                width: width as nat,
                cells: fields@,
            }),
            fields@.len() != height * width ==> made == Err::<Self, MapError>(
                MapError::CellCountMismatch,
            ),
    {
        assert(height * width <= u64::MAX) by (nonlinear_arith)
            requires
                0 <= height <= u32::MAX,
                0 <= width <= u32::MAX,
        ;
        let wanted: u64 = (height as u64) * (width as u64);
        if fields.len() as u64 == wanted {
            Ok(CurrentMap { height, width, fields })
        } else {
            Err(MapError::CellCountMismatch)
        }
    }

    /// The number of rows.
    pub fn height(&self) -> (height: u32)
        ensures
            height == self@.height,
            self@.wf(),
    {
        proof {
            use_type_invariant(self);
        }
        self.height
    }

    /// The number of columns.
    pub fn width(&self) -> (width: u32)
        ensures
            width == self@.width,
            self@.wf(),
    {
        proof {
            use_type_invariant(self);
        }
        self.width
    }

    /// The cells, row by row.
    pub fn fields(&self) -> (cells: &Vec<Field>)
        ensures
            cells@ == self@.cells,
            self@.wf(),
    {
        proof {
            use_type_invariant(self);
        }
        &self.fields
    }

    /// The terrain at `pos`, which must lie inside the map on both axes.
    pub fn get(&self, pos: GridPos) -> (field: Field)
        requires
            self@.in_bounds(pos.x as int, pos.y as int),
        ensures
            field == self@.at(pos.x as int, pos.y as int),
    {
        proof {
            use_type_invariant(self);
            self@.lemma_index_in_range(pos.x as int, pos.y as int);
            assert(self@.index_of(pos.x as int, pos.y as int) == pos.x + pos.y * self.width);
            assert(self@.cells.len() == self.fields.len());
        }
        let row_start: usize = pos.y as usize * self.width as usize;
        self.fields[pos.x as usize + row_start]
    }

    /// The terrain at `pos`, or `OutOfBounds` where `pos` leaves the map on
    /// either axis.
    pub fn try_get(&self, pos: GridPos) -> (found: Result<Field, MapError>)
        ensures
            self@.in_bounds(pos.x as int, pos.y as int) ==> found == Ok::<Field, MapError>(
                self@.at(pos.x as int, pos.y as int),
            ),
            !self@.in_bounds(pos.x as int, pos.y as int) ==> found == Err::<Field, MapError>(
                MapError::OutOfBounds,
            ),
    {
        if pos.x < self.width && pos.y < self.height {
            Ok(self.get(pos))
        } else {
            Err(MapError::OutOfBounds)
        }
    }
}

} // verus!
