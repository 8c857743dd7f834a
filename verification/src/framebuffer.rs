use vstd::prelude::*;

verus! {

/// Model of the text-mode framebuffer: a fixed-size run of bytes,
/// interpreted by the hardware as (character, attribute) pairs, together
/// with the log of every write performed on it, oldest first.
///
/// The real buffer is a memory-mapped hardware region that exists for the
/// whole power-on duration; this model carries its byte contents, and the
/// log makes the order and the number of writes part of the record.
pub struct FrameBuffer {
    cells: Vec<u8>,
    log: Vec<(usize, u8)>,
}

impl FrameBuffer {
    /// The byte held in each cell of the buffer.
    pub closed spec fn cells(&self) -> Seq<u8> {
        self.cells@
    }

    /// Every write performed so far, oldest first, as (offset, value).
    pub closed spec fn log(&self) -> Seq<(usize, u8)> {
        self.log@
    }

    /// A fresh buffer holding the given bytes, with nothing written yet.
    pub fn new(contents: Vec<u8>) -> (fb: FrameBuffer)
        ensures
            fb.cells() == contents@,
            fb.log() == Seq::<(usize, u8)>::empty(),
    {
        FrameBuffer { cells: contents, log: Vec::new() }
    }

    /// How many cells the buffer has.
    pub fn len(&self) -> (n: usize)
        ensures
            n == self.cells().len(),
    {
        self.cells.len()
    }

    /// The byte at the given offset.
    pub fn cell(&self, offset: usize) -> (b: u8)
        requires
            offset < self.cells().len(),
        ensures
            b == self.cells()[offset as int],
    {
        self.cells[offset]
    }

    /// Write one byte. Offsets past the buffer are undefined hardware
    /// behaviour, so they are ruled out by precondition.
    pub fn write(&mut self, offset: usize, value: u8)
        requires
            offset < old(self).cells().len(),
        ensures
            final(self).cells() == old(self).cells().update(offset as int, value),
            final(self).log() == old(self).log().push((offset, value)),
    {
        self.cells.set(offset, value);
        self.log.push((offset, value));
    }

    /// How many writes have been performed.
    pub fn write_count(&self) -> (n: usize)
        ensures
            n == self.log().len(),
    {
        self.log.len()
    }

    /// The k-th write performed, as (offset, value).
    pub fn write_at(&self, k: usize) -> (w: (usize, u8))
        requires
            k < self.log().len(),
        ensures
            w == self.log()[k as int],
    {
        self.log[k]
    }

    /// The cell contents fit the machine: there are at most usize::MAX of them.
    pub proof fn lemma_len_fits(&self)
        ensures
            self.cells().len() <= usize::MAX,
    {
        broadcast use vstd::std_specs::vec::axiom_spec_len;

        assert(self.cells.len() == self.cells@.len());
    }
}

} // verus!
