//! The dimension/buffer store: the uniform buffer holding the grid
//! dimensions, the pair of storage buffers holding simulation cell data,
//! and the current/next double-buffer index pair.

use crate::engine::SimulationGrid;
use vstd::prelude::*;

verus! {

/// How a staged buffer will be used on the GPU: as a read-only shader
/// uniform, or as read/write simulation storage.
#[derive(Clone, Copy, PartialEq, Eq, Structural, Debug)]
pub enum BufferUsage {
    Uniform,
    Storage,
}

/// The host-side record of one GPU buffer: its logical contents as 32-bit
/// words, and the usage it is allocated with. `payload` yields the raw
/// bytes an upload hands to the device.
#[derive(Debug)]
pub struct StagedBuffer {
    pub words: Vec<u32>,
    pub usage: BufferUsage,
}

impl StagedBuffer {
    /// The raw bytes of this buffer's contents, four per word, as a
    /// device upload consumes them.
    pub fn payload(&self) -> (r: Vec<u8>)
        ensures
            r@.len() == 4 * self.words@.len(),
            (forall|i: int| 0 <= i < self.words@.len() ==> self.words@[i] == 0) ==> (forall|j: int|
                0 <= j < r@.len() ==> r@[j] == 0),
    {
        cast_words_to_bytes(&self.words)
    }
}

/// Relies on bytemuck::cast_slice: it reinterprets the words' memory as
/// raw bytes, so the result holds exactly four bytes per 32-bit word (the
/// machine's own byte order), and a slice of all-zero words reinterprets
/// to all-zero bytes; for this word-to-byte instantiation it never fails.
#[verifier::external_body]
fn cast_words_to_bytes(words: &Vec<u32>) -> (r: Vec<u8>)
    ensures
        r@.len() == 4 * words@.len(),
        (forall|i: int| 0 <= i < words@.len() ==> words@[i] == 0) ==> (forall|j: int|
            0 <= j < r@.len() ==> r@[j] == 0),
{
    bytemuck::cast_slice::<u32, u8>(words).to_vec()
}

/// Stage a small read-only buffer of shader constants with the given
/// words as contents.
pub fn create_uniform_buffer(data: &Vec<u32>) -> (r: StagedBuffer)
    ensures
        r.usage is Uniform,
        r.words@ == data@,
{
    StagedBuffer { words: clone_words(data), usage: BufferUsage::Uniform }
}

/// Stage a read/write storage buffer pre-filled with the given words.
pub fn create_storage_buffer_with_data(data: &Vec<u32>) -> (r: StagedBuffer)
    ensures
        r.usage is Storage,
        r.words@ == data@,
{
    StagedBuffer { words: clone_words(data), usage: BufferUsage::Storage }
}

/// Copy a word vector.
fn clone_words(data: &Vec<u32>) -> (r: Vec<u32>)
    ensures
        r@ == data@,
{
    let mut r: Vec<u32> = Vec::new();
    let mut i: usize = 0;
    while i < data.len()
        invariant
            i <= data@.len(),
            r@ =~= data@.subrange(0, i as int),
        decreases data@.len() - i,
    {
        r.push(data[i]);
        i = i + 1;
    }
    proof {
        assert(r@ =~= data@);
    }
    r
}

/// A vector of `n` zero-valued 32-bit cells: the safe "all cells dead"
/// initial simulation state.
fn zeroed_cells(n: u32) -> (r: Vec<u32>)
    ensures
        r@.len() == n,
        forall|i: int| 0 <= i < r@.len() ==> r@[i] == 0,
{
    let mut r: Vec<u32> = Vec::new();
    let mut i: u32 = 0;
    while i < n
        invariant
            i <= n,
            r@.len() == i,
            forall|k: int| 0 <= k < r@.len() ==> r@[k] == 0,
        decreases n - i,
    {
        r.push(0);
        i = i + 1;
    }
    r
}

/// The dimension/buffer store: the uniform buffer of grid dimensions, the
/// ordered pair of storage buffers holding cell data, and the double-buffer
/// index pair selecting which is readable vs writable this tick.
#[derive(Debug)]
pub struct VoxelPipelineBuffers {
    /// uniform, used for constants
    pub dimentions: StagedBuffer,
    /// storage
    pub in_out_double_buffers: Vec<StagedBuffer>,
    pub double_indices: DoubleBufferIndices,
}

impl VoxelPipelineBuffers {
    /// The store's invariant against the grid it was built for: the
    /// uniform holds exactly `[width, height]`, there are exactly two
    /// storage buffers each sized to the grid's cell count, and the index
    /// pair is well-formed.
    pub open spec fn wf(self, grid: SimulationGrid) -> bool {
        &&& self.dimentions.usage is Uniform
        &&& self.dimentions.words@ =~= seq![grid.width, grid.height]
        &&& self.in_out_double_buffers@.len() == 2
        &&& (forall|b: int| 0 <= b < 2 ==> (#[trigger] self.in_out_double_buffers@[b]).usage
            is Storage)
        &&& (forall|b: int| 0 <= b < 2 ==> (#[trigger] self.in_out_double_buffers@[b]).words@.len()
            == grid.spec_voxels())
        &&& self.double_indices.wf()
    }

    /// All cells of both storage buffers hold the zero value.
    pub open spec fn all_cells_zero(self) -> bool {
        forall|b: int, i: int|
            0 <= b < self.in_out_double_buffers@.len() && 0 <= i
                < self.in_out_double_buffers@[b].words@.len()
                ==> self.in_out_double_buffers@[b].words@[i] == 0
    }

    /// Construct the store once at startup: upload-ready dimensions
    /// `[width, height]`, two equally sized storage buffers of
    /// `width * height` zeroed cells, and the default index pair
    /// {current: 0, next: 1}.
    pub fn new(grid: &SimulationGrid) -> (r: Self)
        requires
            grid.wf(),
        ensures
            r.wf(*grid),
            r.all_cells_zero(),
            r.double_indices.current == 0,
            r.double_indices.next == 1,
    {
        let mut dim_words: Vec<u32> = Vec::new();
        dim_words.push(grid.width);
        dim_words.push(grid.height);
        let dimentions = create_uniform_buffer(&dim_words);

        let initial_life_data = zeroed_cells(grid.voxels());
        let mut in_out_double_buffers: Vec<StagedBuffer> = Vec::new();
        in_out_double_buffers.push(create_storage_buffer_with_data(&initial_life_data));
        in_out_double_buffers.push(create_storage_buffer_with_data(&initial_life_data));

        VoxelPipelineBuffers {
            dimentions,
            in_out_double_buffers,
            double_indices: DoubleBufferIndices::default(),
        }
    }
}

/// Maintains the current and next storage-buffer indices.
///
/// Well-formed values always keep the two indices distinct and within
/// {0, 1}; `swap` is the only operation that changes them.
#[derive(Clone, Debug)]
pub struct DoubleBufferIndices {
    pub current: usize,
    pub next: usize,
}

impl DoubleBufferIndices {
    /// Both indices select one of the two storage buffers, and they never
    /// point at the same buffer.
    pub open spec fn wf(self) -> bool {
        &&& self.current < 2
        &&& self.next < 2
        &&& self.current != self.next
    }

    /// What one swap does: the next buffer becomes current, and next
    /// advances by wraparound.
    pub open spec fn spec_swap(self) -> DoubleBufferIndices {
        DoubleBufferIndices { current: self.next, next: (((self.next + 1) % 2) as usize) }
    }

    /// The index pair after `n` swaps starting from `self`.
    pub open spec fn spec_swap_n(self, n: nat) -> DoubleBufferIndices
        decreases n,
    {
        if n == 0 {
            self
        } else {
            self.spec_swap_n((n - 1) as nat).spec_swap()
        }
    }

    /// Advance the pair by one simulation tick: must be invoked at most
    /// once per tick, after that tick's GPU work has been issued.
    pub fn swap(&mut self)
        requires
            old(self).wf(),
        ensures
            *final(self) == old(self).spec_swap(),
            final(self).wf(),
    {
        self.current = self.next;
        self.next = (self.next + 1) % 2;
    }
}

impl Default for DoubleBufferIndices {
    /// The startup pair: buffer 0 is current, buffer 1 is next.
    fn default() -> (r: Self)
        ensures
            r.current == 0,
            r.next == 1,
            r.wf(),
    {
        Self { current: 0, next: 1 }
    }
}

/// Swapping is a cycle of length two: two swaps return a well-formed pair
/// to its original values.
pub proof fn lemma_swap_twice_identity(i: DoubleBufferIndices)
    requires
        i.wf(),
    ensures
        i.spec_swap().spec_swap() == i,
{
}

/// After `n` swaps starting from the default pair, `current == n % 2` and
/// `next == (n + 1) % 2`.
pub proof fn lemma_swap_n_alternates(i: DoubleBufferIndices, n: nat)
    requires
        i.current == 0,
        i.next == 1,
    ensures
        i.spec_swap_n(n).current == n % 2,
        i.spec_swap_n(n).next == (n + 1) % 2,
        i.spec_swap_n(n).wf(),
    decreases n,
{
    if n > 0 {
        lemma_swap_n_alternates(i, (n - 1) as nat);
    }
}

} // verus!
