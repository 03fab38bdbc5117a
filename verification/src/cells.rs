//! The energy cells of the planet and its single rocket slot.

use crate::error::PlanetError;
use vstd::prelude::*;

verus! {

/// Number of charged cells among `cells`.
pub open spec fn charged_count(cells: Seq<bool>) -> nat
    decreases cells.len(),
{
    if cells.len() == 0 {
        0
    } else {
        charged_count(cells.drop_last()) + if cells.last() {
            1nat
        } else {
            0nat
        }
    }
}

/// Lowest index at or after `start` whose cell has the charge state `charged`;
/// the number of cells where there is none.
pub open spec fn lowest_from(cells: Seq<bool>, charged: bool, start: int) -> int
    decreases cells.len() - start,
{
    if start < 0 || start >= cells.len() {
        cells.len() as int
    } else if cells[start] == charged {
        start
    } else {
        lowest_from(cells, charged, start + 1)
    }
}

/// Lowest index whose cell has the charge state `charged`; the number of cells
/// where there is none.
pub open spec fn lowest(cells: Seq<bool>, charged: bool) -> int {
    lowest_from(cells, charged, 0)
}

/// `lowest_from` finds a cell in the state asked for, and passes over none.
pub proof fn lemma_lowest_from(cells: Seq<bool>, charged: bool, start: int)
    requires
        0 <= start <= cells.len(),
    ensures
        start <= lowest_from(cells, charged, start) <= cells.len(),
        lowest_from(cells, charged, start) < cells.len() ==> cells[lowest_from(
            cells,
            charged,
            start,
        )] == charged,
        forall|j: int| start <= j < lowest_from(cells, charged, start) ==> cells[j] != charged,
    decreases cells.len() - start,
{
    if start < cells.len() && cells[start] != charged {
        lemma_lowest_from(cells, charged, start + 1);
    }
}

/// `lowest` holds a cell in the state asked for and has none before it.
pub proof fn lemma_lowest(cells: Seq<bool>, charged: bool)
    ensures
        0 <= lowest(cells, charged) <= cells.len(),
        lowest(cells, charged) < cells.len() ==> cells[lowest(cells, charged)] == charged,
        forall|j: int| 0 <= j < lowest(cells, charged) ==> cells[j] != charged,
{
    lemma_lowest_from(cells, charged, 0);
}

/// An index that holds a cell in the state asked for and has none before it
/// is `lowest`.
pub proof fn lemma_lowest_unique(cells: Seq<bool>, charged: bool, i: int)
    requires
        0 <= i < cells.len(),
        cells[i] == charged,
        forall|j: int| 0 <= j < i ==> cells[j] != charged,
    ensures
        lowest(cells, charged) == i,
{
    lemma_lowest(cells, charged);
}

/// Setting one cell changes the count by that cell alone.
pub proof fn lemma_charged_count_update(cells: Seq<bool>, i: int, charged: bool)
    requires
        0 <= i < cells.len(),
    ensures
        charged_count(cells.update(i, charged)) + (if cells[i] {
            1nat
        } else {
            0nat
        }) == charged_count(cells) + (if charged {
            1nat
        } else {
            0nat
        }),
    decreases cells.len(),
{
    let after = cells.update(i, charged);
    if i == cells.len() - 1 {
        assert(after.drop_last() =~= cells.drop_last());
    } else {
        lemma_charged_count_update(cells.drop_last(), i, charged);
        assert(after.drop_last() =~= cells.drop_last().update(i, charged));
    }
}

/// No more cells are charged than there are cells; all are charged exactly when
/// none is empty, and none is charged exactly when none is full.
pub proof fn lemma_charged_count_bounds(cells: Seq<bool>)
    ensures
        charged_count(cells) <= cells.len(),
        charged_count(cells) == cells.len() <==> lowest(cells, false) == cells.len(),
        charged_count(cells) == 0 <==> lowest(cells, true) == cells.len(),
    decreases cells.len(),
{
    lemma_lowest(cells, true);
    lemma_lowest(cells, false);
    if cells.len() > 0 {
        let front = cells.drop_last();
        lemma_charged_count_bounds(front);
        lemma_lowest(front, true);
        lemma_lowest(front, false);
        assert(forall|j: int| 0 <= j < front.len() ==> front[j] == cells[j]);
    }
}

/// The cells and the rocket slot, as mathematical values.
pub struct CellsView {
    /// Charge state of each cell, by index.
    pub cells: Seq<bool>,
    /// Whether a rocket stands ready.
    pub rocket: bool,
}

impl CellsView {
    /// The cells can be counted in a `usize`.
    pub open spec fn wf(self) -> bool {
        self.cells.len() <= usize::MAX
    }

    /// Number of cells.
    pub open spec fn capacity(self) -> nat {
        self.cells.len()
    }

    /// Number of charged cells.
    pub open spec fn charged(self) -> nat {
        charged_count(self.cells)
    }

    /// Number of rockets: none or one.
    pub open spec fn rockets(self) -> nat {
        if self.rocket {
            1
        } else {
            0
        }
    }

    pub open spec fn has_full(self) -> bool {
        lowest(self.cells, true) < self.cells.len()
    }

    pub open spec fn has_empty(self) -> bool {
        lowest(self.cells, false) < self.cells.len()
    }

    /// A sunray charges the lowest empty cell; with none empty nothing changes.
    pub open spec fn charge(self) -> CellsView {
        if self.has_empty() {
            CellsView { cells: self.cells.update(lowest(self.cells, false), true), ..self }
        } else {
            self
        }
    }

    /// The lowest full cell gives up its charge; with none full nothing changes.
    pub open spec fn discharge(self) -> CellsView {
        if self.has_full() {
            CellsView { cells: self.cells.update(lowest(self.cells, true), false), ..self }
        } else {
            self
        }
    }

    /// A rocket can be built: the slot is free and some cell is charged.
    pub open spec fn can_build_rocket(self) -> bool {
        !self.rocket && self.has_full()
    }

    /// The lowest full cell is spent on a rocket; nothing changes where none
    /// can be built.
    pub open spec fn build_rocket(self) -> CellsView {
        if self.can_build_rocket() {
            CellsView { rocket: true, ..self.discharge() }
        } else {
            self
        }
    }

    /// The rocket, if there is one, leaves the planet.
    pub open spec fn take_rocket(self) -> CellsView {
        CellsView { rocket: false, ..self }
    }
}

/// Charging and discharging move the count of charged cells by one, within the
/// bounds, and leave the number of cells alone.
pub proof fn lemma_cells_counts(v: CellsView)
    ensures
        v.charged() <= v.capacity(),
        v.has_full() <==> v.charged() > 0,
        v.has_empty() <==> v.charged() < v.capacity(),
        v.charge().capacity() == v.capacity(),
        v.discharge().capacity() == v.capacity(),
        v.charge().charged() == (if v.has_empty() {
            v.charged() + 1
        } else {
            v.charged()
        }),
        v.discharge().charged() == (if v.has_full() {
            v.charged() - 1
        } else {
            v.charged() as int
        }),
{
    lemma_charged_count_bounds(v.cells);
    lemma_lowest(v.cells, true);
    lemma_lowest(v.cells, false);
    if v.has_empty() {
        lemma_charged_count_update(v.cells, lowest(v.cells, false), true);
    }
    if v.has_full() {
        lemma_charged_count_update(v.cells, lowest(v.cells, true), false);
    }
}

/// The energy cells of a planet, each empty or full, and its rocket slot.
#[derive(Debug, PartialEq, Eq)]
pub struct CellStore {
    cells: Vec<bool>,
    rocket: bool,
}

impl View for CellStore {
    type V = CellsView;

    closed spec fn view(&self) -> CellsView {
        CellsView { cells: self.cells@, rocket: self.rocket }
    }
}

impl CellStore {
    /// A store of `capacity` empty cells without a rocket.
    pub fn new(capacity: usize) -> (r: CellStore)
        ensures
            r@.cells == Seq::new(capacity as nat, |i: int| false),
            !r@.rocket,
    {
        let mut cells: Vec<bool> = Vec::new();
        let mut i: usize = 0;
        while i < capacity
            invariant
                i <= capacity,
                cells@ == Seq::new(i as nat, |j: int| false),
            decreases capacity - i,
        {
            cells.push(false);
            i = i + 1;
        }
        CellStore { cells, rocket: false }
    }

    /// A store with the given cells and rocket slot.
    pub fn from_parts(cells: Vec<bool>, rocket: bool) -> (r: CellStore)
        ensures
            r@ == (CellsView { cells: cells@, rocket }),
    {
        CellStore { cells, rocket }
    }

    /// Number of cells.
    pub fn capacity(&self) -> (r: usize)
        ensures
            r == self@.capacity(),
            self@.wf(),
    {
        self.cells.len()
    }

    /// Whether cell `i` is charged.
    pub fn is_charged(&self, i: usize) -> (r: bool)
        requires
            i < self@.capacity(),
        ensures
            r == self@.cells[i as int],
    {
        self.cells[i]
    }

    /// Whether a rocket stands ready.
    pub fn has_rocket(&self) -> (r: bool)
        ensures
            r == self@.rocket,
    {
        self.rocket
    }

    /// Number of charged cells.
    pub fn charged_count(&self) -> (r: usize)
        ensures
            r == self@.charged(),
    {
        let mut count: usize = 0;
        let mut i: usize = 0;
        while i < self.cells.len()
            invariant
                i <= self.cells.len(),
                count == charged_count(self.cells@.take(i as int)),
                count <= i,
            decreases self.cells.len() - i,
        {
            proof {
                assert(self.cells@.take(i + 1).drop_last() =~= self.cells@.take(i as int));
            }
            if self.cells[i] {
                count = count + 1;
            }
            i = i + 1;
        }
        proof {
            assert(self.cells@.take(i as int) =~= self.cells@);
        }
        count
    }

    /// Lowest index of a cell in the charge state `charged`.
    fn find(&self, charged: bool) -> (r: Option<usize>)
        ensures
            match r {
                Some(i) => i == lowest(self.cells@, charged) && i < self.cells@.len(),
                None => lowest(self.cells@, charged) == self.cells@.len(),
            },
    {
        let mut i: usize = 0;
        while i < self.cells.len()
            invariant
                i <= self.cells.len(),
                lowest(self.cells@, charged) == lowest_from(self.cells@, charged, i as int),
            decreases self.cells.len() - i,
        {
            if self.cells[i] == charged {
                return Some(i);
            }
            i = i + 1;
        }
        None
    }

    /// Index of the lowest full cell.
    pub fn full_cell(&self) -> (r: Option<usize>)
        ensures
            match r {
                Some(i) => self@.has_full() && i == lowest(self@.cells, true),
                None => !self@.has_full(),
            },
    {
        self.find(true)
    }

    /// Index of the lowest empty cell.
    pub fn empty_cell(&self) -> (r: Option<usize>)
        ensures
            match r {
                Some(i) => self@.has_empty() && i == lowest(self@.cells, false),
                None => !self@.has_empty(),
            },
    {
        self.find(false)
    }

    /// Charges the lowest empty cell with a sunray. Fails with `AllCellsFull`,
    /// and changes nothing, exactly when no cell is empty.
    pub fn charge_cell(&mut self) -> (r: Result<(), PlanetError>)
        ensures
            final(self)@ == old(self)@.charge(),
            r == (if old(self)@.has_empty() {
                Ok::<(), PlanetError>(())
            } else {
                Err(PlanetError::AllCellsFull)
            }),
    {
        match self.find(false) {
            Some(i) => {
                self.cells.set(i, true);
                Ok(())
            },
            None => Err(PlanetError::AllCellsFull),
        }
    }

    /// Empties the lowest full cell and returns its index; `None`, with nothing
    /// changed, exactly when no cell is full.
    pub fn discharge_cell(&mut self) -> (r: Option<usize>)
        ensures
            final(self)@ == old(self)@.discharge(),
            match r {
                Some(i) => old(self)@.has_full() && i == lowest(old(self)@.cells, true),
                None => !old(self)@.has_full(),
            },
    {
        match self.find(true) {
            Some(i) => {
                self.cells.set(i, false);
                Some(i)
            },
            None => None,
        }
    }

    /// Builds a rocket from the lowest full cell. Fails with `NoChargedCell`,
    /// and changes nothing, exactly when no cell is full or a rocket is
    /// already there.
    pub fn build_rocket(&mut self) -> (r: Result<(), PlanetError>)
        ensures
            final(self)@ == old(self)@.build_rocket(),
            r == (if old(self)@.can_build_rocket() {
                Ok::<(), PlanetError>(())
            } else {
                Err(PlanetError::NoChargedCell)
            }),
    {
        if self.rocket {
            return Err(PlanetError::NoChargedCell);
        }
        match self.find(true) {
            Some(i) => {
                self.cells.set(i, false);
                self.rocket = true;
                Ok(())
            },
            None => Err(PlanetError::NoChargedCell),
        }
    }

    /// Hands out the rocket: `true` exactly when there was one.
    pub fn take_rocket(&mut self) -> (r: bool)
        ensures
            final(self)@ == old(self)@.take_rocket(),
            r == old(self)@.rocket,
    {
        let had = self.rocket;
        self.rocket = false;
        had
    }
}

} // verus!
