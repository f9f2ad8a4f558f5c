use vstd::prelude::*;

verus! {

/// Error for a cell index outside `[0, N)`.
#[derive(Clone, Copy, Debug, PartialEq, Eq, Structural)]
pub struct IndexError;

/// The state of a grid after flipping cell `i`: that cell is negated,
/// every other cell keeps its value.
pub open spec fn flip_at(s: Seq<bool>, i: int) -> Seq<bool> {
    s.update(i, !s[i])
}

/// A fixed-length array of boolean cells. The length is chosen at
/// construction and never changes; every cell starts out `false` and
/// is mutated only by `toggle`.
pub struct Grid {
    cells: Vec<bool>,
}

impl View for Grid {
    type V = Seq<bool>;

    closed spec fn view(&self) -> Seq<bool> {
        self.cells@
    }
}

impl Grid {
    /// A grid of `n` cells, all `false`.
    pub fn new(n: usize) -> (g: Grid)
        ensures
            g@.len() == n,
            forall|i: int| 0 <= i < n ==> !g@[i],
    {
        let mut cells: Vec<bool> = Vec::new();
        let mut i: usize = 0;
        while i < n
            invariant
                i <= n,
                cells@.len() == i,
                forall|j: int| 0 <= j < i ==> !cells@[j],
            decreases n - i,
        {
            cells.push(false);
            i = i + 1;
        }
        Grid { cells }
    }

    /// How many cells the grid holds.
    pub fn len(&self) -> (n: usize)
        ensures
            n == self@.len(),
    {
        self.cells.len()
    }

    /// Atomically flip one cell. In bounds, the grid becomes `flip_at` of
    /// its old state and the new value of the cell comes back; out of
    /// bounds, the grid is unchanged and `IndexError` comes back.
    pub fn toggle(&mut self, index: usize) -> (r: Result<bool, IndexError>)
        ensures
            r is Ok <==> index < old(self)@.len(),
            final(self)@.len() == old(self)@.len(),
            index < old(self)@.len() ==> {
                &&& final(self)@ == flip_at(old(self)@, index as int)
                &&& final(self)@[index as int] == !old(self)@[index as int]
                &&& r == Ok::<bool, IndexError>(!old(self)@[index as int])
            },
            index >= old(self)@.len() ==> final(self)@ == old(self)@ && r == Err::<
                bool,
                IndexError,
            >(IndexError),
            forall|j: int|
                0 <= j < old(self)@.len() && j != index ==> final(self)@[j] == old(self)@[j],
    {
        if index < self.cells.len() {
            let new_value = !self.cells[index];
            self.cells.set(index, new_value);
            Ok(new_value)
        } else {
            Err(IndexError)
        }
    }

    /// Read one cell without mutating anything. In bounds, the current
    /// value comes back; out of bounds, `IndexError`.
    pub fn get(&self, index: usize) -> (r: Result<bool, IndexError>)
        ensures
            r is Ok <==> index < self@.len(),
            index < self@.len() ==> r == Ok::<bool, IndexError>(self@[index as int]),
            index >= self@.len() ==> r == Err::<bool, IndexError>(IndexError),
    {
        if index < self.cells.len() {
            Ok(self.cells[index])
        } else {
            Err(IndexError)
        }
    }

    /// An independently owned copy of every cell: the copy equals the grid
    /// at this instant and later toggles cannot reach into it.
    pub fn snapshot(&self) -> (r: Vec<bool>)
        ensures
            r@ == self@,
    {
        let mut out: Vec<bool> = Vec::new();
        let mut i: usize = 0;
        while i < self.cells.len()
            invariant
                i <= self.cells@.len(),
                out@ == self.cells@.subrange(0, i as int),
            decreases self.cells@.len() - i,
        {
            out.push(self.cells[i]);
            i = i + 1;
        }
        proof {
            assert(out@ =~= self.cells@);
        }
        out
    }
}

/// Isolation across indices: flipping cell `i` leaves the value of every
/// other cell `j` unchanged.
pub proof fn lemma_flip_isolated(s: Seq<bool>, i: int, j: int)
    requires
        0 <= i < s.len(),
        0 <= j < s.len(),
        i != j,
    ensures
        flip_at(s, i)[j] == s[j],
{
}

/// Flip correctness: one flip negates the cell (so a cell that was
/// `false` becomes `true`), and a second flip of the same cell restores
/// the whole grid — a double toggle is the identity.
pub proof fn lemma_double_flip_identity(s: Seq<bool>, i: int)
    requires
        0 <= i < s.len(),
    ensures
        flip_at(s, i)[i] == !s[i],
        flip_at(flip_at(s, i), i) == s,
{
    assert(flip_at(flip_at(s, i), i) =~= s);
}

/// The grid after `k` successive flips of cell `i`, each starting from
/// the state the previous one left. Under the store's lock these are the
/// only histories `k` toggles of one cell can produce, whichever order
/// the callers win the lock in.
pub open spec fn flip_n(s: Seq<bool>, i: int, k: nat) -> Seq<bool>
    decreases k,
{
    if k == 0 {
        s
    } else {
        flip_at(flip_n(s, i, (k - 1) as nat), i)
    }
}

/// No lost updates: after `k` serialized flips of cell `i`, the cell
/// holds its original value exactly when `k` is even and the negation
/// exactly when `k` is odd — never fewer effective flips than `k` — and
/// every other cell holds its original value whatever `k` is.
pub proof fn lemma_flip_n(s: Seq<bool>, i: int, k: nat)
    requires
        0 <= i < s.len(),
    ensures
        flip_n(s, i, k).len() == s.len(),
        flip_n(s, i, k)[i] == (if k % 2 == 0 {
            s[i]
        } else {
            !s[i]
        }),
        forall|j: int| 0 <= j < s.len() && j != i ==> flip_n(s, i, k)[j] == s[j],
    decreases k,
{
    if k > 0 {
        lemma_flip_n(s, i, (k - 1) as nat);
    }
}

} // verus!
