//! The flat 65536-word memory with the memory-mapped keyboard device: reads
//! of the status register first latch the result of a non-blocking keyboard
//! poll into the status and data registers. Writes are plain storage
//! everywhere, the device addresses included.

use vstd::prelude::*;
use crate::isa::{KBDR, KBSR, MEM_SIZE};

verus! {

/// Memory contents after the device refresh that a read of `address`
/// performs: a read of the keyboard status register latches the poll result
/// `kb` (`Some(b)`: status 0x8000, data `b`; `None`: status 0); a read of
/// any other address changes nothing.
pub open spec fn spec_poll(m: Seq<u16>, address: u16, kb: Option<u8>) -> Seq<u16> {
    if address == KBSR {
        match kb {
            Option::Some(b) => m.update(KBSR as int, 0x8000u16).update(KBDR as int, b as u16),
            Option::None => m.update(KBSR as int, 0u16),
        }
    } else {
        m
    }
}

/// Repeating a read-side device refresh with the same poll outcome changes
/// nothing more: polling any number of times is the same as polling once.
pub proof fn lemma_poll_idempotent(m: Seq<u16>, address: u16, kb: Option<u8>)
    requires
        m.len() == MEM_SIZE,
    ensures
        spec_poll(spec_poll(m, address, kb), address, kb) == spec_poll(m, address, kb),
{
    assert(spec_poll(spec_poll(m, address, kb), address, kb) =~= spec_poll(m, address, kb));
}

/// A poll with no key available leaves the status register zero: the
/// machine never blocks on an empty keyboard.
pub proof fn lemma_poll_no_key(m: Seq<u16>)
    requires
        m.len() == MEM_SIZE,
    ensures
        spec_poll(m, KBSR, Option::None)[KBSR as int] == 0,
{
}

/// The word assembled from the little-endian byte pair at positions
/// `2 + 2*j` and `3 + 2*j` of an image.
pub open spec fn image_word(img: Seq<u8>, j: int) -> u16 {
    (img[2 + 2 * j] + img[3 + 2 * j] * 0x100) as u16
}

/// The addressable word array.
pub struct Memory {
    /// The stored words, one per address.
    pub cells: Vec<u16>,
}

impl View for Memory {
    type V = Seq<u16>;

    open spec fn view(&self) -> Seq<u16> {
        self.cells@
    }
}

impl Memory {
    /// The memory is well formed: one word per address.
    pub open spec fn wf(self) -> bool {
        self@.len() == MEM_SIZE
    }

    /// A fresh, zero-initialized memory.
    pub fn new() -> (m: Memory)
        ensures
            m.wf(),
            m@ == Seq::new(MEM_SIZE as nat, |i: int| 0u16),
    {
        let mut cells: Vec<u16> = Vec::new();
        while cells.len() < MEM_SIZE
            invariant
                cells@.len() <= MEM_SIZE,
                forall|i: int| 0 <= i < cells@.len() ==> cells@[i] == 0u16,
            decreases MEM_SIZE - cells@.len(),
        {
            cells.push(0);
        }
        proof {
            assert(cells@ =~= Seq::new(MEM_SIZE as nat, |i: int| 0u16));
        }
        Memory { cells }
    }

    /// Stores `val` at `address`, unconditionally: no address is protected,
    /// the device registers included.
    pub fn mem_write(&mut self, address: u16, val: u16)
        requires
            old(self).wf(),
        ensures
            final(self).wf(),
            final(self)@ == old(self)@.update(address as int, val),
    {
        self.cells.set(address as usize, val);
    }

    /// Reads the word at `address` as the simulated program sees it: a read
    /// of the keyboard status register first latches the poll outcome `kb`
    /// into the device registers, then returns the (just-updated) stored
    /// word; any other address is plain storage.
    pub fn mem_read(&mut self, address: u16, kb: Option<u8>) -> (r: u16)
        requires
            old(self).wf(),
        ensures
            final(self).wf(),
            final(self)@ == spec_poll(old(self)@, address, kb),
            r == final(self)@[address as int],
    {
        if address == KBSR {
            match kb {
                Option::Some(b) => {
                    self.cells.set(KBSR as usize, 0x8000);
                    self.cells.set(KBDR as usize, b as u16);
                },
                Option::None => {
                    self.cells.set(KBSR as usize, 0);
                },
            }
        }
        self.cells[address as usize]
    }

    /// Reads the stored word at `address` with no device side effect.
    pub fn read_raw(&self, address: u16) -> (r: u16)
        requires
            self.wf(),
        ensures
            r == self@[address as int],
    {
        self.cells[address as usize]
    }

    /// Copies a binary image into memory: the first two bytes are the
    /// little-endian origin address, the rest little-endian words stored
    /// from the origin up. The copy is silently bounded by the top of the
    /// address space, and a trailing odd byte is ignored. Returns false,
    /// changing nothing, when the image is too short to hold an origin.
    pub fn load_image(&mut self, image: &Vec<u8>) -> (ok: bool)
        requires
            old(self).wf(),
        ensures
            final(self).wf(),
            image@.len() < 2 ==> !ok && final(self)@ == old(self)@,
            image@.len() >= 2 ==> ok && ({
                let origin = image@[0] + image@[1] * 0x100;
                let pairs = (image@.len() - 2) as int / 2;
                let avail = MEM_SIZE - origin;
                let n = if pairs <= avail { pairs } else { avail as int };
                &&& forall|j: int|
                    0 <= j < n ==> final(self)@[origin + j] == image_word(image@, j)
                &&& forall|i: int|
                    0 <= i < MEM_SIZE && !(origin <= i < origin + n) ==> final(self)@[i]
                        == old(self)@[i]
            }),
    {
        if image.len() < 2 {
            return false;
        }
        let origin: u16 = image[0] as u16 + image[1] as u16 * 0x100;
        let avail: usize = MEM_SIZE - origin as usize;
        let pairs: usize = (image.len() - 2) / 2;
        let n: usize = if pairs <= avail {
            pairs
        } else {
            avail
        };
        let ghost pre = self@;
        let mut j: usize = 0;
        while j < n
            invariant
                self.wf(),
                j <= n,
                n <= avail,
                n <= pairs,
                pairs == (image@.len() - 2) as int / 2,
                avail == MEM_SIZE - origin,
                origin == image@[0] + image@[1] * 0x100,
                2 <= image@.len(),
                forall|k: int| 0 <= k < j ==> self@[origin + k] == image_word(image@, k),
                forall|i: int|
                    0 <= i < MEM_SIZE && !(origin <= i < origin + j) ==> self@[i] == pre[i],
            decreases n - j,
        {
            proof {
                assert(2 * ((image@.len() - 2) as int / 2) <= image@.len() - 2) by (nonlinear_arith);
            }
            let lo = image[2 + 2 * j] as u16;
            let hi = image[3 + 2 * j] as u16;
            self.mem_write(origin + j as u16, lo + hi * 0x100);
            j = j + 1;
        }
        true
    }
}

} // verus!
