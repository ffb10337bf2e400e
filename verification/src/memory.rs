use vstd::prelude::*;

use crate::screen::DIGITS;

verus! {

/// A memory address of the CHIP-8 machine.
pub type Address = u16;

/// Highest address the interpreter checks accesses against; the memory
/// itself holds `MEMORY_SIZE` bytes, addresses `0` to `MEMORY_SIZE - 1`.
pub const MEMORY_SIZE: Address = 0xFFF;

/// Where the hexadecimal font starts.
pub const DIGITS_ADDR: Address = 0x0;

/// First address of the region reserved for the interpreter.
pub const RESERVED_SPACE_START: Address = 0x000;

/// Last address of the region reserved for the interpreter.
pub const RESERVED_SPACE_END: Address = 0x1FF;

/// The kind of memory access that failed.
#[derive(Debug, Clone, Copy, PartialEq, Eq, Structural)]
pub enum AccessKind {
    Write,
    Read,
}

/// Why a memory access was refused.
#[derive(Debug, Clone, Copy, PartialEq, Eq, Structural)]
pub enum MemoryError {
    /// The access reaches past `MEMORY_SIZE`.
    OutOfBound(AccessKind, Address),
    /// The write targets the reserved interpreter area.
    ReservedAddr(AccessKind, Address),
}

/// The machine's RAM.
#[derive(Debug, Clone)]
pub struct Memory {
    pub data: [u8; 0xFFF],
}

/// Whether `addr` lies in the interpreter's reserved area.
pub open spec fn spec_is_reserved(addr: int) -> bool {
    RESERVED_SPACE_START <= addr <= RESERVED_SPACE_END
}

/// A write of `len` bytes at `addr` that passes the checks of `store` but
/// touches the byte at `MEMORY_SIZE`, which the memory does not hold.
pub open spec fn store_overruns(addr: int, len: int) -> bool {
    !spec_is_reserved(addr) && len > 0 && addr + len - 1 == MEMORY_SIZE
}

/// A read of `n` bytes at `addr` whose bounds computation overflows `u16`,
/// or that passes the bound check but ends at `MEMORY_SIZE`.
pub open spec fn read_overruns(addr: int, n: int) -> bool {
    addr + n == 0 || addr + n > u16::MAX || addr + n == MEMORY_SIZE + 1
}

/// `mem` with the bytes of `bytes` written from `addr` on.
pub open spec fn spec_write(mem: Seq<u8>, bytes: Seq<u8>, addr: int) -> Seq<u8> {
    Seq::new(mem.len(), |j: int| if addr <= j < addr + bytes.len() { bytes[j - addr] } else { mem[j] })
}

/// Address of the font sprite of hexadecimal digit `value`.
pub open spec fn spec_digit_addr(value: u8) -> int {
    DIGITS_ADDR + 5 * value
}

/// Address of the font sprite of hexadecimal digit `value`.
pub fn digit_addr(value: u8) -> (addr: Address)
    ensures
        addr == spec_digit_addr(value),
{
    DIGITS_ADDR + 5 * (value as Address)
}

/// Number of bytes of the hexadecimal font.
pub const FONT_LEN: usize = 80;

/// Byte `j` of the hexadecimal font, the digit sprites laid end to end.
pub open spec fn font_byte(j: int) -> u8 {
    DIGITS@[j / 5]@[j % 5]
}

/// The memory of a freshly started machine: the font at `DIGITS_ADDR`, zero
/// elsewhere.
pub open spec fn initial_bytes() -> Seq<u8> {
    Seq::new(MEMORY_SIZE as nat, |j: int| if j < FONT_LEN { font_byte(j) } else { 0u8 })
}

impl Memory {
    /// Memory holding the hexadecimal font at `DIGITS_ADDR` and zero elsewhere.
    pub fn new() -> (m: Memory)
        ensures
            m.bytes() == initial_bytes(),
    {
        let mut data = [0u8; 0xFFF];
        let mut d: usize = 0;
        while d < 16
            invariant
                0 <= d <= 16,
                forall|j: int|
                    0 <= j < MEMORY_SIZE ==> #[trigger] data@[j] == (if j < 5 * d {
                        font_byte(j)
                    } else {
                        0u8
                    }),
            decreases 16 - d,
        {
            let mut r: usize = 0;
            while r < 5
                invariant
                    0 <= d < 16,
                    0 <= r <= 5,
                    forall|j: int|
                        0 <= j < MEMORY_SIZE ==> #[trigger] data@[j] == (if j < 5 * d + r {
                            font_byte(j)
                        } else {
                            0u8
                        }),
                decreases 5 - r,
            {
                let b = DIGITS[d][r];
                assert(font_byte(5 * d + r) == b);
                data.set(DIGITS_ADDR as usize + 5 * d + r, b);
                r = r + 1;
            }
            d = d + 1;
        }
        let m = Memory { data };
        assert(m.bytes() =~= initial_bytes());
        m
    }

    /// The memory's bytes.
    pub open spec fn bytes(&self) -> Seq<u8> {
        self.data@
    }

    /// Whether `addr` lies in the interpreter's reserved area.
    pub fn is_reserved(addr: Address) -> (b: bool)
        ensures
            b == spec_is_reserved(addr as int),
    {
        RESERVED_SPACE_START <= addr && addr <= RESERVED_SPACE_END
    }

    /// Write `bytes` at `addr`.
    ///
    /// Writes into the reserved area and writes past `MEMORY_SIZE` are refused
    /// and leave the memory unchanged.
    pub fn store(&mut self, bytes: &[u8], addr: Address) -> (res: Result<(), MemoryError>)
        requires
            !store_overruns(addr as int, bytes@.len() as int),
            addr + bytes@.len() <= usize::MAX,
        ensures
            spec_is_reserved(addr as int) ==> res == Err::<(), MemoryError>(
                MemoryError::ReservedAddr(AccessKind::Write, addr),
            ),
            !spec_is_reserved(addr as int) && addr + bytes@.len() - 1 > MEMORY_SIZE ==> res
                == Err::<(), MemoryError>(MemoryError::OutOfBound(AccessKind::Write, addr)),
            !spec_is_reserved(addr as int) && addr + bytes@.len() - 1 <= MEMORY_SIZE ==> res
                is Ok,
            res is Ok ==> final(self).bytes() == spec_write(old(self).bytes(), bytes@, addr as int),
            res is Err ==> final(self).bytes() == old(self).bytes(),
    {
        if Memory::is_reserved(addr) {
            return Err(MemoryError::ReservedAddr(AccessKind::Write, addr));
        }
        let len = bytes.len();
        if addr as usize + len - 1 > MEMORY_SIZE as usize {
            return Err(MemoryError::OutOfBound(AccessKind::Write, addr));
        }
        let ghost old_bytes = self.data@;
        let mut k: usize = 0;
        while k < len
            invariant
                0 <= k <= len,
                len == bytes@.len(),
                len > 0 ==> addr as int + len <= MEMORY_SIZE,
                old_bytes.len() == MEMORY_SIZE,
                self.data@ == Seq::new(
                    old_bytes.len(),
                    |j: int|
                        if addr <= j < addr + k {
                            bytes@[j - addr]
                        } else {
                            old_bytes[j]
                        },
                ),
            decreases len - k,
        {
            let a: usize = addr as usize + k;
            self.data.set(a, bytes[k]);
            k = k + 1;
        }
        Ok(())
    }

    /// Read `n` bytes starting at `addr`.
    pub fn read(&self, addr: Address, n: Address) -> (res: Result<&[u8], MemoryError>)
        requires
            !read_overruns(addr as int, n as int),
        ensures
            addr + n - 1 > MEMORY_SIZE ==> res == Err::<&[u8], MemoryError>(
                MemoryError::OutOfBound(AccessKind::Read, addr),
            ),
            addr + n - 1 <= MEMORY_SIZE ==> res is Ok && res->Ok_0@ == self.bytes().subrange(
                addr as int,
                addr + n,
            ),
    {
        if addr + n - 1 > MEMORY_SIZE {
            return Err(MemoryError::OutOfBound(AccessKind::Read, addr));
        }
        let s: &[u8] = &self.data[addr as usize..(addr + n) as usize];
        Ok(s)
    }
}

impl Default for Memory {
    fn default() -> (m: Memory)
        ensures
            m.bytes() == initial_bytes(),
    {
        Memory::new()
    }
}

} // verus!
