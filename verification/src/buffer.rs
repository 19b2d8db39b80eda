//! Host-visible buffers: a contiguous run of 32-bit words tagged with the
//! usage flags it was allocated under. A buffer is created either from
//! explicit host data, from an ascending counter, or zero-initialised at a
//! given length.

use vstd::prelude::*;

verus! {

/// The usage flags a buffer is allocated with.
#[derive(Clone, Copy, Debug, PartialEq, Eq, Structural)]
pub struct BufferUsage {
    pub transfer_src: bool,
    pub transfer_dst: bool,
    pub storage: bool,
}

impl BufferUsage {
    /// Flags for a transfer source buffer.
    pub fn transfer_src() -> (u: BufferUsage)
        ensures
            u == (BufferUsage { transfer_src: true, transfer_dst: false, storage: false }),
    {
        BufferUsage { transfer_src: true, transfer_dst: false, storage: false }
    }

    /// Flags for a transfer destination buffer.
    pub fn transfer_dst() -> (u: BufferUsage)
        ensures
            u == (BufferUsage { transfer_src: false, transfer_dst: true, storage: false }),
    {
        BufferUsage { transfer_src: false, transfer_dst: true, storage: false }
    }

    /// Flags for a storage buffer, readable and writable by a dispatch.
    pub fn storage() -> (u: BufferUsage)
        ensures
            u == (BufferUsage { transfer_src: false, transfer_dst: false, storage: true }),
    {
        BufferUsage { transfer_src: false, transfer_dst: false, storage: true }
    }
}

/// A host-visible buffer: its usage flags and the words it holds.
#[derive(Debug)]
pub struct Buffer {
    pub usage: BufferUsage,
    pub words: Vec<u32>,
}

impl View for Buffer {
    type V = Seq<u32>;

    open spec fn view(&self) -> Seq<u32> {
        self.words@
    }
}

impl Buffer {
    /// Allocates a buffer pre-populated with host data.
    pub fn from_data(usage: BufferUsage, data: Vec<u32>) -> (b: Buffer)
        ensures
            b.usage == usage,
            b@ == data@,
    {
        Buffer { usage, words: data }
    }

    /// Allocates a zero-initialised buffer of `len` words.
    pub fn zeroed(usage: BufferUsage, len: usize) -> (b: Buffer)
        ensures
            b.usage == usage,
            b@.len() == len,
            forall|i: int| 0 <= i < len ==> b@[i] == 0u32,
    {
        let mut words: Vec<u32> = Vec::new();
        let mut k: usize = 0;
        while k < len
            invariant
                k <= len,
                words@.len() == k,
                forall|i: int| 0 <= i < k ==> words@[i] == 0u32,
            decreases len - k,
        {
            words.push(0);
            k = k + 1;
        }
        Buffer { usage, words }
    }
}

/// The contents an iterator over `0..n` fills a buffer with: the word at
/// each index is the index itself.
pub fn ascending_words(n: usize) -> (v: Vec<u32>)
    requires
        n <= u32::MAX,
    ensures
        v@.len() == n,
        forall|i: int| 0 <= i < n ==> v@[i] == i as u32,
{
    let mut v: Vec<u32> = Vec::new();
    let mut k: usize = 0;
    while k < n
        invariant
            n <= u32::MAX,
            k <= n,
            v@.len() == k,
            forall|i: int| 0 <= i < k ==> v@[i] == i as u32,
        decreases n - k,
    {
        v.push(k as u32);
        k = k + 1;
    }
    v
}

/// Copies a run of words, word for word.
pub fn copy_words(src: &Vec<u32>) -> (r: Vec<u32>)
    ensures
        r@ == src@,
{
    let mut r: Vec<u32> = Vec::new();
    let mut k: usize = 0;
    while k < src.len()
        invariant
            k <= src@.len(),
            r@ == src@.subrange(0, k as int),
        decreases src@.len() - k,
    {
        r.push(src[k]);
        k = k + 1;
    }
    proof {
        assert(r@ =~= src@);
    }
    r
}

} // verus!
