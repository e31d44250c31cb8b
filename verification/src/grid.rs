use vstd::prelude::*;

use crate::symbol::Symbol;
use core::ops::Range;

verus! {

/// Names which grid dimension was rejected.
#[derive(Copy, Clone, Debug, PartialEq, Eq, Structural)]
pub enum GridDimension {
    Width,
    Height,
}

/// Error: a grid was asked for with a zero width or height.
#[derive(Copy, Clone, Debug, PartialEq, Eq, Structural)]
pub struct InvalidDimensionError {
    dimension: GridDimension,
}

impl InvalidDimensionError {
    /// Which dimension was zero.
    pub closed spec fn spec_dimension(self) -> GridDimension {
        self.dimension
    }

    /// Records which dimension was rejected.
    pub fn new(dimension: GridDimension) -> (e: InvalidDimensionError)
        ensures
            e.spec_dimension() == dimension,
    {
        InvalidDimensionError { dimension }
    }

    /// Which dimension was zero.
    pub fn dimension(self) -> (d: GridDimension)
        ensures
            d == self.spec_dimension(),
    {
        self.dimension
    }
}

/// Error: a coordinate outside the grid bounds on a mutating access.
#[derive(Copy, Clone, Debug, PartialEq, Eq, Structural)]
pub struct InvalidCoordinatesError {
    pub grid_width: usize,
    pub grid_height: usize,
    pub x: usize,
    pub y: usize,
}

/// One stored cell: a coordinate and the symbol set there.
#[derive(Copy, Clone, Debug, PartialEq, Eq, Structural)]
struct Cell {
    x: usize,
    y: usize,
    symbol: Symbol,
}

/// The symbol that a sequence of stored cells shows at `(x, y)`: the cell
/// stored last, or `Cover` where nothing is stored.
spec fn lookup(cells: Seq<Cell>, x: usize, y: usize) -> Symbol
    decreases cells.len(),
{
    if cells.len() == 0 {
        Symbol::Cover
    } else if cells.last().x == x && cells.last().y == y {
        cells.last().symbol
    } else {
        lookup(cells.drop_last(), x, y)
    }
}

/// Whether two cells store the same coordinate.
spec fn same_coordinate(a: Cell, b: Cell) -> bool {
    a.x == b.x && a.y == b.y
}

/// Overwriting the cell at index `i` with a cell for the same coordinate
/// makes the lookup at that coordinate yield the new symbol, provided no
/// later cell stores the same coordinate.
proof fn lemma_lookup_update(cells: Seq<Cell>, i: int, cell: Cell)
    requires
        0 <= i < cells.len(),
        same_coordinate(cells[i], cell),
        forall|j: int| i < j < cells.len() ==> !same_coordinate(#[trigger] cells[j], cell),
    ensures
        lookup(cells.update(i, cell), cell.x, cell.y) == cell.symbol,
    decreases cells.len(),
{
    let updated = cells.update(i, cell);
    if i == cells.len() - 1 {
        assert(updated.last() == cell);
    } else {
        assert(updated.last() == cells.last());
        assert(!same_coordinate(cells.last(), cell));
        assert(updated.drop_last() =~= cells.drop_last().update(i, cell));
        assert(forall|j: int|
            i < j < cells.drop_last().len() ==> !same_coordinate(
                #[trigger] cells.drop_last()[j],
                cell,
            ));
        lemma_lookup_update(cells.drop_last(), i, cell);
    }
}

/// Overwriting the cell at index `i` with a cell for the same coordinate
/// leaves the lookup at every other coordinate unchanged.
proof fn lemma_lookup_update_other(cells: Seq<Cell>, i: int, cell: Cell, x: usize, y: usize)
    requires
        0 <= i < cells.len(),
        same_coordinate(cells[i], cell),
        !(cell.x == x && cell.y == y),
    ensures
        lookup(cells.update(i, cell), x, y) == lookup(cells, x, y),
    decreases cells.len(),
{
    let updated = cells.update(i, cell);
    if i == cells.len() - 1 {
        assert(updated.last() == cell);
        assert(updated.drop_last() =~= cells.drop_last());
    } else {
        assert(updated.last() == cells.last());
        assert(updated.drop_last() =~= cells.drop_last().update(i, cell));
        lemma_lookup_update_other(cells.drop_last(), i, cell, x, y);
    }
}

/// A `width x height` grid of symbols, stored sparsely: a coordinate that was
/// never set shows the default `Cover` symbol.
#[derive(Clone, Debug, PartialEq, Eq)]
pub struct Grid {
    width: usize,
    height: usize,
    symbols: Vec<Cell>,
}

impl Grid {
    /// The grid width.
    pub closed spec fn spec_width(self) -> usize {
        self.width
    }

    /// The grid height.
    pub closed spec fn spec_height(self) -> usize {
        self.height
    }

    /// Well-formed: both dimensions are at least 1, every stored cell lies
    /// within `[0, width) x [0, height)`, and no coordinate is stored twice.
    pub closed spec fn wf(self) -> bool {
        &&& self.width >= 1
        &&& self.height >= 1
        &&& forall|i: int| 0 <= i < self.symbols@.len()
            ==> (#[trigger] self.symbols@[i]).x < self.width && self.symbols@[i].y < self.height
        &&& forall|i: int, j: int| 0 <= i < j < self.symbols@.len()
            ==> !same_coordinate(#[trigger] self.symbols@[i], #[trigger] self.symbols@[j])
    }

    /// The symbol shown at `(x, y)`: the stored one, or `Cover` if none.
    pub closed spec fn symbol_at(self, x: usize, y: usize) -> Symbol {
        lookup(self.symbols@, x, y)
    }

    /// Builds an empty grid: every coordinate shows `Cover`. A zero width or
    /// height is rejected, the width being checked first.
    pub fn new(width: usize, height: usize) -> (r: Result<Grid, InvalidDimensionError>)
        ensures
            r is Ok <==> width >= 1 && height >= 1,
            r matches Ok(g) ==> g.wf() && g.spec_width() == width && g.spec_height() == height
                && forall|x: usize, y: usize| #[trigger] g.symbol_at(x, y) == Symbol::Cover,
            width == 0 ==> (r matches Err(e) && e.spec_dimension() == GridDimension::Width),
            width >= 1 && height == 0 ==> (r matches Err(e) && e.spec_dimension()
                == GridDimension::Height),
    {
        if width == 0 {
            return Err(InvalidDimensionError::new(GridDimension::Width));
        }
        if height == 0 {
            return Err(InvalidDimensionError::new(GridDimension::Height));
        }
        Ok(Grid { width, height, symbols: Vec::new() })
    }

    /// The grid width.
    pub fn width(&self) -> (w: usize)
        ensures
            w == self.spec_width(),
    {
        self.width
    }

    /// The grid height.
    pub fn height(&self) -> (h: usize)
        ensures
            h == self.spec_height(),
    {
        self.height
    }

    /// Reads the symbol at `(x, y)`; a coordinate never set shows `Cover`.
    pub fn get(&self, x: usize, y: usize) -> (s: Symbol)
        ensures
            s == self.symbol_at(x, y),
    {
        let mut i: usize = self.symbols.len();
        proof {
            assert(self.symbols@.take(self.symbols@.len() as int) =~= self.symbols@);
        }
        while i > 0
            invariant
                i <= self.symbols@.len(),
                lookup(self.symbols@, x, y) == lookup(self.symbols@.take(i as int), x, y),
            decreases i,
        {
            i = i - 1;
            let cell = &self.symbols[i];
            proof {
                assert(self.symbols@.take(i as int + 1).last() == self.symbols@[i as int]);
                assert(self.symbols@.take(i as int + 1).drop_last() =~= self.symbols@.take(
                    i as int,
                ));
            }
            if cell.x == x && cell.y == y {
                return cell.symbol;
            }
        }
        Symbol::Cover
    }

    /// Stores `symbol` at `(x, y)`. A coordinate outside the grid is rejected
    /// and leaves the grid unchanged; otherwise only the cell at `(x, y)`
    /// changes.
    pub fn set(&mut self, x: usize, y: usize, symbol: Symbol) -> (r: Result<
        (),
        InvalidCoordinatesError,
    >)
        requires
            old(self).wf(),
        ensures
            final(self).wf(),
            final(self).spec_width() == old(self).spec_width(),
            final(self).spec_height() == old(self).spec_height(),
            r is Ok <==> x < old(self).spec_width() && y < old(self).spec_height(),
            r matches Err(e) ==> *final(self) == *old(self) && e == (InvalidCoordinatesError {
                grid_width: old(self).spec_width(),
                grid_height: old(self).spec_height(),
                x,
                y,
            }),
            r is Ok ==> final(self).symbol_at(x, y) == symbol,
            r is Ok ==> forall|a: usize, b: usize| !(a == x && b == y)
                ==> #[trigger] final(self).symbol_at(a, b) == old(self).symbol_at(a, b),
    {
        if x >= self.width || y >= self.height {
            return Err(
                InvalidCoordinatesError { grid_width: self.width, grid_height: self.height, x, y },
            );
        }
        let new_cell = Cell { x, y, symbol };
        let mut i: usize = 0;
        while i < self.symbols.len()
            invariant
                *self == *old(self),
                old(self).wf(),
                x < old(self).spec_width(),
                y < old(self).spec_height(),
                new_cell == (Cell { x, y, symbol }),
                i <= self.symbols@.len(),
                forall|j: int| 0 <= j < i ==> !same_coordinate(#[trigger] self.symbols@[j], new_cell),
            decreases self.symbols@.len() - i,
        {
            let cell = &self.symbols[i];
            if cell.x == x && cell.y == y {
                let ghost before = self.symbols@;
                let ghost at = i as int;
                self.symbols[i] = new_cell;
                proof {
                    let updated = before.update(at, new_cell);
                    assert(self.symbols@ =~= updated);
                    assert(same_coordinate(before[at], new_cell));
                    assert forall|j: int| at < j < before.len() implies !same_coordinate(
                        #[trigger] before[j],
                        new_cell,
                    ) by {
                        assert(!same_coordinate(old(self).symbols@[at], old(self).symbols@[j]));
                    }
                    assert forall|k: int| 0 <= k < updated.len() implies (#[trigger] updated[k]).x
                        < old(self).spec_width() && updated[k].y < old(self).spec_height() by {
                        assert(old(self).symbols@[k].x < old(self).spec_width());
                        assert(old(self).symbols@[k].y < old(self).spec_height());
                    }
                    assert forall|p: int, q: int| 0 <= p < q < updated.len()
                        implies !same_coordinate(
                        #[trigger] updated[p],
                        #[trigger] updated[q],
                    ) by {
                        assert(!same_coordinate(old(self).symbols@[p], old(self).symbols@[q]));
                    }
                    lemma_lookup_update(before, at, new_cell);
                    assert forall|a: usize, b: usize| !(a == x && b == y)
                        implies #[trigger] lookup(updated, a, b) == lookup(before, a, b) by {
                        lemma_lookup_update_other(before, at, new_cell, a, b);
                    }
                }
                return Ok(());
            }
            i = i + 1;
        }
        let ghost before = self.symbols@;
        self.symbols.push(new_cell);
        proof {
            let after = self.symbols@;
            assert(after.last() == new_cell);
            assert(after.drop_last() =~= before);
            assert forall|p: int, q: int| 0 <= p < q < after.len() implies !same_coordinate(
                #[trigger] after[p],
                #[trigger] after[q],
            ) by {
                if q == after.len() - 1 {
                    assert(!same_coordinate(before[p], new_cell));
                } else {
                    assert(!same_coordinate(old(self).symbols@[p], old(self).symbols@[q]));
                }
            }
            assert forall|k: int| 0 <= k < after.len() implies (#[trigger] after[k]).x < old(
                self,
            ).spec_width() && after[k].y < old(self).spec_height() by {
                if k < after.len() - 1 {
                    assert(old(self).symbols@[k].x < old(self).spec_width());
                    assert(old(self).symbols@[k].y < old(self).spec_height());
                }
            }
        }
        Ok(())
    }

    /// Resolves a pair of range bounds into a half-open index range; an
    /// unbounded start falls back to `0`, an unbounded end to `upper_unbound`.
    pub fn bound_to_range(start: RangeBound, end: RangeBound, upper_unbound: usize) -> (r: Range<
        usize,
    >)
        requires
            start matches RangeBound::Excluded(b) ==> b < usize::MAX,
            end matches RangeBound::Included(b) ==> b < usize::MAX,
        ensures
            r.start == (match start {
                RangeBound::Included(b) => b as int,
                RangeBound::Excluded(b) => b + 1,
                RangeBound::Unbounded => 0int,
            }),
            r.end == (match end {
                RangeBound::Included(b) => b + 1,
                RangeBound::Excluded(b) => b as int,
                RangeBound::Unbounded => upper_unbound as int,
            }),
    {
        let s: usize = match start {
            RangeBound::Included(b) => b,
            RangeBound::Excluded(b) => b + 1,
            RangeBound::Unbounded => 0,
        };
        let e: usize = match end {
            RangeBound::Included(b) => b + 1,
            RangeBound::Excluded(b) => b,
            RangeBound::Unbounded => upper_unbound,
        };
        s..e
    }

    /// Copies the cells whose coordinates lie in `columns x rows` into a new
    /// grid, re-indexed to start at `(0, 0)`. The ranges need not lie within
    /// the grid: coordinates beyond it show `Cover`. An empty range is
    /// rejected as an invalid dimension, the columns being checked first.
    pub fn copy_of_range(&self, columns: Range<usize>, rows: Range<usize>) -> (r: Result<
        Grid,
        InvalidDimensionError,
    >)
        requires
            self.wf(),
        ensures
            r is Ok <==> columns.start < columns.end && rows.start < rows.end,
            r matches Ok(g) ==> {
                &&& g.wf()
                &&& g.spec_width() == columns.end - columns.start
                &&& g.spec_height() == rows.end - rows.start
                &&& forall|a: usize, b: usize|
                    a < g.spec_width() && b < g.spec_height()
                        ==> #[trigger] g.symbol_at(a, b) == self.symbol_at(
                            (a + columns.start) as usize,
                            (b + rows.start) as usize,
                        )
            },
            columns.start >= columns.end ==> (r matches Err(e) && e.spec_dimension()
                == GridDimension::Width),
            columns.start < columns.end && rows.start >= rows.end ==> (r matches Err(e)
                && e.spec_dimension() == GridDimension::Height),
    {
        let x0 = columns.start;
        let x1 = columns.end;
        let y0 = rows.start;
        let y1 = rows.end;
        let width_bound = Self::bound_to_range(
            RangeBound::Included(x0),
            RangeBound::Excluded(x1),
            self.width,
        );
        let height_bound = Self::bound_to_range(
            RangeBound::Included(y0),
            RangeBound::Excluded(y1),
            self.height,
        );
        let w: usize = if width_bound.end > width_bound.start {
            width_bound.end - width_bound.start
        } else {
            0
        };
        let h: usize = if height_bound.end > height_bound.start {
            height_bound.end - height_bound.start
        } else {
            0
        };
        let mut copy = match Grid::new(w, h) {
            Ok(g) => g,
            Err(e) => {
                return Err(e);
            },
        };
        let mut u: usize = 0;
        while u < w
            invariant
                self.wf(),
                copy.wf(),
                copy.spec_width() == w,
                copy.spec_height() == h,
                u <= w,
                w >= 1 && h >= 1,
                x0 + w == x1,
                y0 + h == y1,
                forall|a: usize, b: usize| a < u && b < h
                    ==> #[trigger] copy.symbol_at(a, b) == self.symbol_at(
                        (a + x0) as usize,
                        (b + y0) as usize,
                    ),
            decreases w - u,
        {
            let mut v: usize = 0;
            while v < h
                invariant
                    self.wf(),
                    copy.wf(),
                    copy.spec_width() == w,
                    copy.spec_height() == h,
                    u < w,
                    v <= h,
                    w >= 1 && h >= 1,
                    x0 + w == x1,
                    y0 + h == y1,
                    forall|a: usize, b: usize| a < u && b < h
                        ==> #[trigger] copy.symbol_at(a, b) == self.symbol_at(
                            (a + x0) as usize,
                            (b + y0) as usize,
                        ),
                    forall|b: usize| b < v
                        ==> #[trigger] copy.symbol_at(u, b) == self.symbol_at(
                            (u + x0) as usize,
                            (b + y0) as usize,
                        ),
                decreases h - v,
            {
                let s = self.get(u + x0, v + y0);
                let res = copy.set(u, v, s);
                proof {
                    assert(res is Ok);
                }
                v = v + 1;
            }
            u = u + 1;
        }
        Ok(copy)
    }
}

/// One end of a coordinate range, as a caller may give it.
#[derive(Copy, Clone, Debug, PartialEq, Eq, Structural)]
pub enum RangeBound {
    Included(usize),
    Excluded(usize),
    Unbounded,
}

} // verus!
