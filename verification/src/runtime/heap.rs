//! Handles to heap cells, the store that owns the cells, and the worklist a
//! collector traces into.

use vstd::prelude::*;
use crate::runtime::cell::Cell;
use crate::runtime::jsobject::JSObject;
use crate::runtime::jsvalue::JSValue;
use crate::runtime::jsvalue::Unboxed;

verus! {

/// Cells are placed at multiples of this many bytes.
pub const CELL_ALIGNMENT: u64 = 8;

/// Cell addresses lie below this bound, which keeps them clear of the bits
/// that mark a boxed number.
pub const ADDRESS_LIMIT: u64 = 0x0002_0000_0000_0000;

/// Whether `addr` can be the address of a cell: not null, aligned, and
/// below the address limit.
pub open spec fn is_cell_address(addr: u64) -> bool {
    0 < addr < ADDRESS_LIMIT && addr % CELL_ALIGNMENT == 0
}

/// A reference to a heap cell. It does not own the cell: the heap does.
#[derive(Clone, Copy, Debug, PartialEq, Eq, Structural, Hash)]
pub struct Handle {
    addr: u64,
}

impl Handle {
    /// The address this handle holds.
    pub closed spec fn address(self) -> u64 {
        self.addr
    }

    /// The handle that holds `addr`.
    pub closed spec fn at(addr: u64) -> Handle {
        Handle { addr }
    }

    /// Every handle holds a cell address.
    #[verifier::type_invariant]
    pub closed spec fn wf(self) -> bool {
        is_cell_address(self.addr)
    }

    /// The handle for the cell at `addr`.
    pub fn new(addr: u64) -> (h: Handle)
        requires
            is_cell_address(addr),
        ensures
            h == Handle::at(addr),
            h.wf(),
    {
        Handle { addr }
    }

    /// The handle for the cell at `addr`, if `addr` can be a cell's address.
    pub fn from_address(addr: u64) -> (r: Option<Handle>)
        ensures
            r.is_some() == is_cell_address(addr),
            r matches Some(h) ==> h == Handle::at(addr) && h.wf(),
    {
        if 0 < addr && addr < ADDRESS_LIMIT && addr % CELL_ALIGNMENT == 0 {
            Some(Handle { addr })
        } else {
            None
        }
    }

    /// The address of the cell this handle refers to.
    pub fn to_address(self) -> (addr: u64)
        ensures
            addr == self.address(),
            is_cell_address(addr),
            self.wf(),
    {
        proof {
            use_type_invariant(&self);
        }
        self.addr
    }

    /// A handle is well formed exactly when its address is a cell address,
    /// and it is the handle at its address.
    pub broadcast proof fn lemma_address(self)
        ensures
            #[trigger] self.wf() == is_cell_address(self.address()),
            Handle::at(self.address()) == self,
    {
    }

    /// The handle at an address holds that address.
    pub broadcast proof fn lemma_at(addr: u64)
        ensures
            #[trigger] Handle::at(addr).address() == addr,
    {
    }
}

/// The worklist of a tracing collector: the handles reported so far, in the
/// order they were reported.
pub struct Tracer {
    stack: Vec<Handle>,
}

impl View for Tracer {
    type V = Seq<Handle>;

    closed spec fn view(&self) -> Seq<Handle> {
        self.stack@
    }
}

impl Tracer {
    /// A worklist with nothing on it.
    pub fn new() -> (tracer: Tracer)
        ensures
            tracer@ == Seq::<Handle>::empty(),
    {
        Tracer { stack: Vec::new() }
    }

    /// Reports a reference to the cell behind `item`.
    pub fn trace(&mut self, item: Handle)
        ensures
            final(self)@ == old(self)@.push(item),
    {
        self.stack.push(item);
    }

    /// Takes the handle reported last off the worklist.
    pub fn pop(&mut self) -> (item: Option<Handle>)
        ensures
            old(self)@.len() == 0 ==> item is None && final(self)@ == old(self)@,
            old(self)@.len() > 0 ==> item == Some(old(self)@.last()) && final(self)@ == old(
                self,
            )@.drop_last(),
    {
        self.stack.pop()
    }

    /// How many handles are on the worklist.
    pub fn len(&self) -> (n: usize)
        ensures
            n == self@.len(),
    {
        self.stack.len()
    }
}

/// The largest number of cells a heap can hold.
pub const MAX_CELLS: usize = 0x3fff_ffff;

/// The store of cells. It owns every cell; values and objects refer to
/// cells by handle. Cells are never moved or freed here: collecting them is
/// the collector's work.
pub struct Heap {
    cells: Vec<Cell>,
    limit: usize,
}

impl Heap {
    /// The cells of this heap, oldest first.
    pub closed spec fn cells(&self) -> Seq<Cell> {
        self.cells@
    }

    /// How many cells this heap may hold.
    pub closed spec fn limit(&self) -> nat {
        if self.limit <= MAX_CELLS {
            self.limit as nat
        } else {
            MAX_CELLS as nat
        }
    }

    /// Where in the heap the cell behind `h` lies.
    pub open spec fn slot_of(h: Handle) -> int {
        h.address() as int / CELL_ALIGNMENT as int - 1
    }

    /// The handle of the cell at `slot`.
    pub open spec fn handle_of(slot: int) -> Handle {
        Handle::at(((slot + 1) * CELL_ALIGNMENT) as u64)
    }

    /// Whether `h` refers to a cell of this heap.
    pub open spec fn contains(&self, h: Handle) -> bool {
        h.wf() && Self::slot_of(h) < self.cells().len()
    }

    /// The cell behind `h`.
    pub open spec fn cell(&self, h: Handle) -> Cell {
        self.cells()[Self::slot_of(h)]
    }

    /// Whether `v` refers to an object of this heap.
    pub open spec fn is_object(&self, v: JSValue) -> bool {
        v@ matches Unboxed::Cell(h) && self.contains(h) && self.cell(h) is Object
    }

    /// The object that `v` refers to.
    pub open spec fn object(&self, v: JSValue) -> JSObject {
        self.cell(v@->Cell_0)->Object_0
    }

    /// Whether every prototype link in this heap leads to an object of
    /// this heap.
    pub open spec fn wf(&self) -> bool {
        forall|i: int|
            0 <= i < self.cells().len() ==> (#[trigger] self.cells()[i] matches Cell::Object(o)
                ==> (o.prototype matches Some(p) ==> self.is_object(p)))
    }

    /// In a well-formed heap, the prototype of an object is an object.
    pub proof fn lemma_prototype_is_object(&self, v: JSValue)
        requires
            self.wf(),
            self.is_object(v),
            self.object(v).prototype is Some,
        ensures
            self.is_object(self.object(v).prototype.unwrap()),
    {
        let i = Self::slot_of(v@->Cell_0);
        assert(self.cells()[i] matches Cell::Object(o) ==> (o.prototype matches Some(p)
            ==> self.is_object(p)));
    }

    /// An empty heap that may hold as many cells as a heap can.
    pub fn new() -> (heap: Heap)
        ensures
            heap.cells() == Seq::<Cell>::empty(),
            heap.limit() == MAX_CELLS,
            heap.wf(),
    {
        Heap { cells: Vec::new(), limit: MAX_CELLS }
    }

    /// An empty heap that may hold `limit` cells, or as many as a heap can
    /// if that is fewer.
    pub fn with_limit(limit: usize) -> (heap: Heap)
        ensures
            heap.cells() == Seq::<Cell>::empty(),
            heap.limit() == (if limit <= MAX_CELLS {
                limit
            } else {
                MAX_CELLS
            }),
            heap.wf(),
    {
        Heap {
            cells: Vec::new(),
            limit: if limit <= MAX_CELLS {
                limit
            } else {
                MAX_CELLS
            },
        }
    }

    /// How many cells this heap holds.
    pub fn len(&self) -> (n: usize)
        ensures
            n == self.cells().len(),
    {
        self.cells.len()
    }

    /// Puts `cell` in the heap and returns its handle, unless the heap is
    /// full. The cells that were there keep their handles.
    pub fn allocate(&mut self, cell: Cell) -> (r: Option<Handle>)
        ensures
            final(self).limit() == old(self).limit(),
            r.is_some() == (old(self).cells().len() < old(self).limit()),
            r is None ==> final(self).cells() == old(self).cells(),
            r matches Some(h) ==> {
                &&& final(self).cells() == old(self).cells().push(cell)
                &&& h == Self::handle_of(old(self).cells().len() as int)
                &&& Self::slot_of(h) == old(self).cells().len()
                &&& h.wf()
                &&& final(self).contains(h)
                &&& final(self).cell(h) == cell
            },
            old(self).wf() && (cell matches Cell::Object(o) ==> (o.prototype matches Some(p)
                ==> old(self).is_object(p))) ==> final(self).wf(),
    {
        let ghost added = cell;
        let n = self.cells.len();
        if n >= self.limit || n >= MAX_CELLS {
            return None;
        }
        let addr: u64 = (n as u64 + 1) * CELL_ALIGNMENT;
        let h = Handle::new(addr);
        self.cells.push(cell);
        proof {
            let before = old(self).cells();
            let after = self.cells();
            assert forall|i: int| 0 <= i < before.len() implies after[i] == before[i] by {}
            if old(self).wf() && (added matches Cell::Object(o) ==> (o.prototype matches Some(p)
                ==> old(self).is_object(p))) {
                assert forall|i: int| 0 <= i < after.len() implies (#[trigger] after[i] matches Cell::Object(
                    o,
                ) ==> (o.prototype matches Some(p) ==> self.is_object(p))) by {
                    if i < before.len() {
                        if let Cell::Object(o) = before[i] {
                            if let Some(p) = o.prototype {
                                assert(after[Self::slot_of(p@->Cell_0)] == before[Self::slot_of(
                                    p@->Cell_0,
                                )]);
                            }
                        }
                    } else {
                        if let Cell::Object(o) = added {
                            if let Some(p) = o.prototype {
                                assert(after[Self::slot_of(p@->Cell_0)] == before[Self::slot_of(
                                    p@->Cell_0,
                                )]);
                            }
                        }
                    }
                }
            }
        }
        Some(h)
    }

    /// The slot of the cell behind `h`, if `h` refers to a cell of this
    /// heap.
    fn slot(&self, h: Handle) -> (r: Option<usize>)
        ensures
            r.is_some() == self.contains(h),
            r matches Some(i) ==> i == Self::slot_of(h) && i < self.cells().len(),
    {
        let addr = h.to_address();
        let slot: u64 = addr / CELL_ALIGNMENT - 1;
        if slot < self.cells.len() as u64 {
            Some(slot as usize)
        } else {
            None
        }
    }

    /// The cell behind `h`, if `h` refers to a cell of this heap.
    pub fn get(&self, h: Handle) -> (r: Option<&Cell>)
        ensures
            r.is_some() == self.contains(h),
            r matches Some(cell) ==> *cell == self.cell(h),
    {
        match self.slot(h) {
            Some(i) => Some(&self.cells[i]),
            None => None,
        }
    }

    /// The cell behind `h`, to be changed in place, if `h` refers to a cell
    /// of this heap. No other cell changes.
    pub fn get_mut(&mut self, h: Handle) -> (r: Option<&mut Cell>)
        ensures
            r.is_some() == old(self).contains(h),
            r is None ==> *final(self) == *old(self),
            final(self).limit() == old(self).limit(),
            r matches Some(cell) ==> {
                &&& *cell == old(self).cell(h)
                &&& final(self).cells() == old(self).cells().update(Self::slot_of(h), *final(cell))
            },
    {
        match self.slot(h) {
            Some(i) => Some(&mut self.cells[i]),
            None => None,
        }
    }

    /// Whether every prototype link in this heap leads to an object of
    /// this heap.
    pub fn is_well_formed(&self) -> (b: bool)
        ensures
            b == self.wf(),
    {
        let n = self.cells.len();
        let mut i: usize = 0;
        while i < n
            invariant
                i <= n,
                n == self.cells().len(),
                forall|j: int|
                    0 <= j < i ==> (#[trigger] self.cells()[j] matches Cell::Object(o) ==> (
                    o.prototype matches Some(p) ==> self.is_object(p))),
            decreases n - i,
        {
            match &self.cells[i] {
                Cell::Object(o) => {
                    match o.prototype {
                        Some(p) => {
                            if self.get_object(p).is_none() {
                                return false;
                            }
                        },
                        None => {},
                    }
                },
                _ => {},
            }
            i = i + 1;
        }
        true
    }

    /// The object that `v` refers to, if it refers to an object of this
    /// heap.
    pub fn get_object(&self, v: JSValue) -> (r: Option<&JSObject>)
        ensures
            r.is_some() == self.is_object(v),
            r matches Some(o) ==> *o == self.object(v),
    {
        if !v.is_cell() {
            return None;
        }
        match self.get(v.as_cell()) {
            Some(Cell::Object(o)) => Some(o),
            _ => None,
        }
    }
}

} // verus!
