use vstd::prelude::*;

use crate::error::EmulatorError;

verus! {

/// The unsigned integer whose little-endian byte encoding is `s`.
pub open spec fn le_value(s: Seq<u8>) -> nat
    decreases s.len(),
{
    if s.len() == 0 {
        0
    } else {
        s[0] as nat + 256 * le_value(s.drop_first())
    }
}

/// A region of `size` bytes holding `code` at its start and zeros after it.
pub open spec fn loaded_image(code: Seq<u8>, size: u64) -> Seq<u8> {
    code + Seq::new((size - code.len()) as nat, |i: int| 0u8)
}

/// The access widths, in bits, that memory supports.
pub open spec fn is_valid_width(width: u64) -> bool {
    width == 8 || width == 16 || width == 32 || width == 64
}

proof fn lemma_le_step(s: Seq<u8>, i: int, n: int)
    requires
        0 <= i,
        0 < n,
        i + n <= s.len(),
    ensures
        le_value(s.subrange(i, i + n)) == s[i] as nat + 256 * le_value(s.subrange(i + 1, i + n)),
{
    assert(s.subrange(i, i + n).drop_first() =~= s.subrange(i + 1, i + n));
}

proof fn lemma_or2(b0: u64, b1: u64)
    by (bit_vector)
    requires
        b0 < 256,
        b1 < 256,
    ensures
        b0 | (b1 << 8) == b0 + 256 * b1,
{
}

proof fn lemma_or4(b0: u64, b1: u64, b2: u64, b3: u64)
    by (bit_vector)
    requires
        b0 < 256,
        b1 < 256,
        b2 < 256,
        b3 < 256,
    ensures
        b0 | (b1 << 8) | (b2 << 16) | (b3 << 24) == b0 + 256 * (b1 + 256 * (b2 + 256 * b3)),
{
}

proof fn lemma_or8(b0: u64, b1: u64, b2: u64, b3: u64, b4: u64, b5: u64, b6: u64, b7: u64)
    by (bit_vector)
    requires
        b0 < 256,
        b1 < 256,
        b2 < 256,
        b3 < 256,
        b4 < 256,
        b5 < 256,
        b6 < 256,
        b7 < 256,
    ensures
        b0 | (b1 << 8) | (b2 << 16) | (b3 << 24) | (b4 << 32) | (b5 << 40) | (b6 << 48) | (b7
            << 56) == b0 + 256 * (b1 + 256 * (b2 + 256 * (b3 + 256 * (b4 + 256 * (b5 + 256 * (b6
            + 256 * b7)))))),
{
}

/// Unfolds `le_value` over the `n` bytes of `s` that start at `i`.
proof fn lemma_le_unfold(s: Seq<u8>, i: int, n: int)
    requires
        0 <= i,
        n == 1 || n == 2 || n == 4 || n == 8,
        i + n <= s.len(),
    ensures
        n == 1 ==> le_value(s.subrange(i, i + n)) == s[i] as nat,
        n == 2 ==> le_value(s.subrange(i, i + n)) == s[i] + 256 * s[i + 1],
        n == 4 ==> le_value(s.subrange(i, i + n)) == s[i] + 256 * (s[i + 1] + 256 * (s[i + 2]
            + 256 * s[i + 3])),
        n == 8 ==> le_value(s.subrange(i, i + n)) == s[i] + 256 * (s[i + 1] + 256 * (s[i + 2]
            + 256 * (s[i + 3] + 256 * (s[i + 4] + 256 * (s[i + 5] + 256 * (s[i + 6] + 256 * s[i
            + 7])))))),
{
    if 0 < n {
        lemma_le_step(s, i + 0, n - 0);
    }
    if 1 < n {
        lemma_le_step(s, i + 1, n - 1);
    }
    if 2 < n {
        lemma_le_step(s, i + 2, n - 2);
    }
    if 3 < n {
        lemma_le_step(s, i + 3, n - 3);
    }
    if 4 < n {
        lemma_le_step(s, i + 4, n - 4);
    }
    if 5 < n {
        lemma_le_step(s, i + 5, n - 5);
    }
    if 6 < n {
        lemma_le_step(s, i + 6, n - 6);
    }
    if 7 < n {
        lemma_le_step(s, i + 7, n - 7);
    }
    assert(le_value(s.subrange(i + n, i + n)) == 0);
}

/// A fixed-capacity, zero-initialised byte region mapped at `base`.
#[derive(Debug)]
pub struct Dram {
    pub dram: Vec<u8>,
    pub base: u64,
}

impl Dram {
    /// Every byte of the region has an address that fits in 64 bits.
    pub open spec fn wf(&self) -> bool {
        self.base + self.dram@.len() <= u64::MAX
    }

    /// An access of `width` bits at `addr` lies wholly inside the region.
    pub open spec fn fits(&self, addr: u64, width: u64) -> bool {
        self.base <= addr && addr - self.base + width / 8 <= self.dram.len()
    }

    /// What a load of `width` bits at `addr` yields.
    pub open spec fn spec_load(&self, addr: u64, width: u64) -> Result<u64, EmulatorError> {
        if is_valid_width(width) {
            let i = addr - self.base;
            Ok(le_value(self.dram@.subrange(i, i + width / 8)) as u64)
        } else {
            Err(EmulatorError::InvalidWidth { width })
        }
    }

    /// A region of `size` zero bytes mapped at `base`, with `code` copied
    /// to its start. Fails when `code` is longer than the region.
    pub fn new(code: Vec<u8>, base: u64, size: u64) -> (r: Result<Dram, EmulatorError>)
        requires
            base + size <= u64::MAX,
            size <= usize::MAX,
        ensures
            match r {
                Ok(d) => {
                    &&& code@.len() <= size
                    &&& d.base == base
                    &&& d.dram@ == loaded_image(code@, size)
                    &&& d.wf()
                },
                Err(e) => code@.len() > size && e == (EmulatorError::ProgramTooLarge {
                    len: code@.len() as usize,
                    capacity: size,
                }),
            },
    {
        if code.len() as u64 > size {
            return Err(EmulatorError::ProgramTooLarge { len: code.len(), capacity: size });
        }
        let mut dram: Vec<u8> = vec![0u8; size as usize];
        let mut i: usize = 0;
        while i < code.len()
            invariant
                code@.len() <= size,
                dram@.len() == size,
                i <= code@.len(),
                forall|j: int| 0 <= j < i ==> dram@[j] == code@[j],
                forall|j: int| i <= j < size ==> dram@[j] == 0u8,
            decreases code@.len() - i,
        {
            dram[i] = code[i];
            i = i + 1;
        }
        let d = Dram { dram, base };
        assert(d.dram@ =~= loaded_image(code@, size));
        Ok(d)
    }

    /// Loads `width` bits, little-endian, from `addr`.
    pub fn load(&self, addr: u64, width: u64) -> (r: Result<u64, EmulatorError>)
        requires
            self.wf(),
            self.base <= addr,
            is_valid_width(width) ==> self.fits(addr, width),
        ensures
            r == self.spec_load(addr, width),
    {
        let index = (addr - self.base) as usize;
        match width {
            8 => Ok(self.load8(index)),
            16 => Ok(self.load16(index)),
            32 => Ok(self.load32(index)),
            64 => Ok(self.load64(index)),
            _ => Err(EmulatorError::InvalidWidth { width }),
        }
    }

    /// Loads one byte.
    fn load8(&self, index: usize) -> (r: u64)
        requires
            index + 1 <= self.dram.len(),
        ensures
            r == le_value(self.dram@.subrange(index as int, index + 1)),
    {
        proof {
            lemma_le_unfold(self.dram@, index as int, 1);
        }
        self.dram[index] as u64
    }

    /// Loads two bytes, little-endian.
    fn load16(&self, index: usize) -> (r: u64)
        requires
            index + 2 <= self.dram.len(),
        ensures
            r == le_value(self.dram@.subrange(index as int, index + 2)),
    {
        let b0 = self.dram[index] as u64;
        let b1 = self.dram[index + 1] as u64;
        proof {
            lemma_le_unfold(self.dram@, index as int, 2);
            lemma_or2(b0, b1);
        }
        b0 | (b1 << 8)
    }

    /// Loads four bytes, little-endian.
    fn load32(&self, index: usize) -> (r: u64)
        requires
            index + 4 <= self.dram.len(),
        ensures
            r == le_value(self.dram@.subrange(index as int, index + 4)),
    {
        let b0 = self.dram[index] as u64;
        let b1 = self.dram[index + 1] as u64;
        let b2 = self.dram[index + 2] as u64;
        let b3 = self.dram[index + 3] as u64;
        proof {
            lemma_le_unfold(self.dram@, index as int, 4);
            lemma_or4(b0, b1, b2, b3);
        }
        b0 | (b1 << 8) | (b2 << 16) | (b3 << 24)
    }

    /// Loads eight bytes, little-endian.
    fn load64(&self, index: usize) -> (r: u64)
        requires
            index + 8 <= self.dram.len(),
        ensures
            r == le_value(self.dram@.subrange(index as int, index + 8)),
    {
        let b0 = self.dram[index] as u64;
        let b1 = self.dram[index + 1] as u64;
        let b2 = self.dram[index + 2] as u64;
        let b3 = self.dram[index + 3] as u64;
        let b4 = self.dram[index + 4] as u64;
        let b5 = self.dram[index + 5] as u64;
        let b6 = self.dram[index + 6] as u64;
        let b7 = self.dram[index + 7] as u64;
        proof {
            lemma_le_unfold(self.dram@, index as int, 8);
            lemma_or8(b0, b1, b2, b3, b4, b5, b6, b7);
        }
        b0 | (b1 << 8) | (b2 << 16) | (b3 << 24) | (b4 << 32) | (b5 << 40) | (b6 << 48) | (b7
            << 56)
    }
}

} // verus!
