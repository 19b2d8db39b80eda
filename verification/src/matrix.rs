//! A 4-by-4 matrix of single-precision words, the payload of the transfer
//! demonstration. Each entry is carried as its raw bit pattern, so that a
//! buffer-to-buffer transfer can be stated word for word.

use vstd::prelude::*;

verus! {

/// Bit pattern of the single-precision value 1.0, the diagonal entry of the
/// identity matrix.
pub const ONE_BITS: u32 = 0x3F80_0000;

/// The word a freshly built identity matrix holds at flat (row-major)
/// index `k`: the pattern of 1.0 on the diagonal, of 0.0 elsewhere.
pub open spec fn identity_word(k: int) -> u32 {
    if k / 4 == k % 4 {
        ONE_BITS
    } else {
        0u32
    }
}

/// A 4-by-4 matrix in row-major order, each entry held as its raw
/// single-precision bit pattern.
#[derive(Debug)]
pub struct Matrix4x4 {
    pub words: Vec<u32>,
}

impl Matrix4x4 {
    /// A matrix is well formed when it holds exactly the 16 words of a
    /// 4-by-4 layout.
    pub open spec fn wf(self) -> bool {
        self.words@.len() == 16
    }

    /// The word at row `r`, column `c`.
    pub open spec fn word(self, r: int, c: int) -> u32 {
        self.words@[4 * r + c]
    }

    /// The identity matrix: 1.0 on the diagonal, 0.0 everywhere else.
    pub fn identity() -> (m: Matrix4x4)
        ensures
            m.wf(),
            forall|k: int| 0 <= k < 16 ==> #[trigger] m.words@[k] == identity_word(k),
            forall|r: int, c: int|
                0 <= r < 4 && 0 <= c < 4 ==> m.word(r, c) == (if r == c {
                    ONE_BITS
                } else {
                    0u32
                }),
    {
        let mut words: Vec<u32> = Vec::new();
        let mut k: usize = 0;
        while k < 16
            invariant
                k <= 16,
                words@.len() == k,
                forall|i: int| 0 <= i < k ==> words@[i] == identity_word(i),
            decreases 16 - k,
        {
            if k / 4 == k % 4 {
                words.push(ONE_BITS);
            } else {
                words.push(0);
            }
            k = k + 1;
        }
        let m = Matrix4x4 { words };
        proof {
            assert forall|r: int, c: int| 0 <= r < 4 && 0 <= c < 4 implies m.word(r, c) == (if r
                == c {
                ONE_BITS
            } else {
                0u32
            }) by {
                let j = 4 * r + c;
                assert(0 <= j < 16);
                assert(j / 4 == r && j % 4 == c) by (nonlinear_arith)
                    requires
                        0 <= r < 4,
                        0 <= c < 4,
                        j == 4 * r + c,
                ;
                assert(m.words@[j] == identity_word(j));
            }
        }
        m
    }
}

impl Default for Matrix4x4 {
    /// The zero matrix: every word is the bit pattern of 0.0.
    fn default() -> (m: Matrix4x4)
        ensures
            m.wf(),
            forall|k: int| 0 <= k < 16 ==> #[trigger] m.words@[k] == 0u32,
    {
        let mut words: Vec<u32> = Vec::new();
        let mut k: usize = 0;
        while k < 16
            invariant
                k <= 16,
                words@.len() == k,
                forall|i: int| 0 <= i < k ==> words@[i] == 0u32,
            decreases 16 - k,
        {
            words.push(0);
            k = k + 1;
        }
        Matrix4x4 { words }
    }
}

} // verus!
