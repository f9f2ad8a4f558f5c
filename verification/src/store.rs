use crate::grid::Grid;
use crate::grid::IndexError;
use vstd::prelude::*;
use vstd::rwlock::RwLock;
use vstd::rwlock::RwLockPredicate;

verus! {

/// Lock invariant for the shared store: whatever grid sits inside the
/// lock has exactly `n` cells, so the length never changes for the life
/// of the process.
pub struct GridPred {
    pub n: nat,
}

impl RwLockPredicate<Grid> for GridPred {
    open spec fn inv(self, g: Grid) -> bool {
        g@.len() == self.n
    }
}

/// The process-wide store of cells, shared by every concurrent caller.
///
/// All access to the backing grid goes through one coarse reader-writer
/// lock: a toggle holds the write lock for an O(1) flip, a point read or
/// a full snapshot holds a read lock, and nothing else ever touches the
/// grid. Each operation is therefore atomic with respect to all others:
/// no caller can observe a half-applied flip, two toggles of one cell
/// compose as two sequential flips, and a snapshot is a stop-the-world
/// copy of one consistent state. Callers never see the lock, and no I/O
/// happens while it is held.
pub struct CellStore {
    n: usize,
    lock: RwLock<Grid, GridPred>,
}

impl CellStore {
    /// How many cells the store was created with; fixed for its lifetime.
    pub closed spec fn n(&self) -> nat {
        self.n as nat
    }

    /// The cell count fits the machine's index type.
    pub proof fn lemma_n_in_range(&self)
        ensures
            self.n() <= usize::MAX,
    {
    }

    #[verifier::type_invariant]
    spec fn wf(&self) -> bool {
        self.lock.pred() == (GridPred { n: self.n as nat })
    }

    /// A store of `n` cells, all initially `false`.
    pub fn new(n: usize) -> (s: CellStore)
        ensures
            s.n() == n,
    {
        let grid = Grid::new(n);
        let lock = RwLock::<Grid, GridPred>::new(grid, Ghost(GridPred { n: n as nat }));
        CellStore { n, lock }
    }

    /// The number of cells.
    pub fn num_cells(&self) -> (r: usize)
        ensures
            r == self.n(),
    {
        self.n
    }

    /// Atomically flip one cell and return its new value, or `IndexError`
    /// (mutating nothing) when the index is out of bounds. The flip is a
    /// full `Grid::toggle` performed under the write lock, so concurrent
    /// toggles of one cell compose as a sequence of flips: each starts
    /// from the state the previous one left.
    pub fn toggle(&self, index: usize) -> (r: Result<bool, IndexError>)
        ensures
            r is Ok <==> index < self.n(),
    {
        proof {
            use_type_invariant(self);
        }
        let (mut grid, write_handle) = self.lock.acquire_write();
        let r = grid.toggle(index);
        write_handle.release_write(grid);
        r
    }

    /// Read one cell without mutating it, or `IndexError` when the index
    /// is out of bounds. Performed under a read lock, so the value read
    /// is one a fully-applied sequence of prior toggles produced.
    pub fn get(&self, index: usize) -> (r: Result<bool, IndexError>)
        ensures
            r is Ok <==> index < self.n(),
    {
        proof {
            use_type_invariant(self);
        }
        let read_handle = self.lock.acquire_read();
        let r = read_handle.borrow().get(index);
        read_handle.release_read();
        r
    }

    /// An independently owned copy of all cells, taken under a read lock:
    /// one consistent instant, which later toggles cannot reach into.
    pub fn snapshot(&self) -> (r: Vec<bool>)
        ensures
            r@.len() == self.n(),
    {
        proof {
            use_type_invariant(self);
        }
        let read_handle = self.lock.acquire_read();
        let r = read_handle.borrow().snapshot();
        read_handle.release_read();
        r
    }
}

} // verus!
