//! Guest memory: one contiguous window of bytes at a guest address, each
//! byte with the protection of its page.
//!
//! Every access is checked against the window and the protection, so a
//! guest address outside it or a forbidden access is a reported fault and
//! never a stray host access.  Multi-byte values are little-endian.
use vstd::prelude::*;

verus! {

/// Byte `i` (counted from the least significant) of `v`.
pub open spec fn byte_of(v: u64, i: nat) -> u8 {
    if i == 0 {
        (v % 0x100) as u8
    } else if i == 1 {
        (v / 0x100 % 0x100) as u8
    } else if i == 2 {
        (v / 0x1_0000 % 0x100) as u8
    } else if i == 3 {
        (v / 0x100_0000 % 0x100) as u8
    } else if i == 4 {
        (v / 0x1_0000_0000 % 0x100) as u8
    } else if i == 5 {
        (v / 0x100_0000_0000 % 0x100) as u8
    } else if i == 6 {
        (v / 0x1_0000_0000_0000 % 0x100) as u8
    } else {
        (v / 0x100_0000_0000_0000 % 0x100) as u8
    }
}

/// The number that the bytes `s[at .. at + len]` spell in little-endian
/// order, for `len` up to 8.
pub open spec fn le_value(s: Seq<u8>, at: int, len: nat) -> int
    decreases len,
{
    if len == 0 {
        0
    } else {
        s[at] as int + 0x100 * le_value(s, at + 1, (len - 1) as nat)
    }
}

/// `s` with the low `len` bytes of `v` written at `at` in little-endian
/// order.
pub open spec fn le_store(s: Seq<u8>, at: int, v: u64, len: nat) -> Seq<u8> {
    Seq::new(
        s.len(),
        |i: int|
            if at <= i < at + len {
                byte_of(v, (i - at) as nat)
            } else {
                s[i]
            },
    )
}

/// The 16-bit little-endian value at `bytes[at..]`.
pub fn le_u16(bytes: &Vec<u8>, at: usize) -> (r: u16)
    requires
        at + 2 <= bytes@.len(),
    ensures
        r == le_value(bytes@, at as int, 2),
{
    reveal_with_fuel(le_value, 3);
    assert(bytes@.len() == bytes.len());
    bytes[at] as u16 + 0x100 * (bytes[at + 1] as u16)
}

/// The 32-bit little-endian value at `bytes[at..]`.
pub fn le_u32(bytes: &Vec<u8>, at: usize) -> (r: u32)
    requires
        at + 4 <= bytes@.len(),
    ensures
        r == le_value(bytes@, at as int, 4),
{
    reveal_with_fuel(le_value, 5);
    assert(bytes@.len() == bytes.len());
    bytes[at] as u32 + 0x100 * (bytes[at + 1] as u32) + 0x1_0000 * (bytes[at + 2] as u32)
        + 0x100_0000 * (bytes[at + 3] as u32)
}

/// The 64-bit little-endian value at `bytes[at..]`.
pub fn le_u64(bytes: &Vec<u8>, at: usize) -> (r: u64)
    requires
        at + 8 <= bytes@.len(),
    ensures
        r == le_value(bytes@, at as int, 8),
{
    reveal_with_fuel(le_value, 9);
    assert(bytes@.len() == bytes.len());
    let low: u64 = bytes[at] as u64 + 0x100 * (bytes[at + 1] as u64) + 0x1_0000 * (bytes[at
        + 2] as u64) + 0x100_0000 * (bytes[at + 3] as u64);
    let high: u64 = bytes[at + 4] as u64 + 0x100 * (bytes[at + 5] as u64) + 0x1_0000 * (bytes[at
        + 6] as u64) + 0x100_0000 * (bytes[at + 7] as u64);
    low + 0x1_0000_0000 * high
}

/// The protection `p` allows reading: its bit 0 is set.
pub open spec fn can_read(p: u8) -> bool {
    p % 2 == 1
}

/// The protection `p` allows writing: its bit 1 is set.
pub open spec fn can_write(p: u8) -> bool {
    p / 2 % 2 == 1
}

/// The protection `p` allows the access: a write if `write`, else a read.
pub open spec fn permits(p: u8, write: bool) -> bool {
    if write {
        can_write(p)
    } else {
        can_read(p)
    }
}

/// Guest memory as contracts see it: `bytes[i]` is the byte at guest
/// address `start + i`, and `prot[i]` is its protection.
pub struct MemView {
    pub start: u64,
    pub bytes: Seq<u8>,
    pub prot: Seq<u8>,
}

impl MemView {
    /// The window ends within the 64-bit address space, and every byte has
    /// a protection.
    pub open spec fn wf(self) -> bool {
        self.start + self.bytes.len() <= u64::MAX && self.prot.len() == self.bytes.len()
    }

    /// First guest address past the window.
    pub open spec fn end(self) -> int {
        self.start + self.bytes.len()
    }

    /// The `len` bytes at `addr` lie inside the window.
    pub open spec fn mapped(self, addr: u64, len: nat) -> bool {
        self.start <= addr && addr + len <= self.start + self.bytes.len()
    }

    /// The `len` bytes at `addr` lie inside the window, and the protection
    /// of each allows the access: a write if `write`, else a read.
    pub open spec fn accessible(self, addr: u64, len: nat, write: bool) -> bool {
        self.mapped(addr, len) && forall|i: int|
            addr - self.start <= i < addr - self.start + len ==> permits(
                #[trigger] self.prot[i],
                write,
            )
    }

    /// The `len` bytes at `addr` may be read.
    pub open spec fn readable(self, addr: u64, len: nat) -> bool {
        self.accessible(addr, len, false)
    }

    /// The `len` bytes at `addr` may be written.
    pub open spec fn writable(self, addr: u64, len: nat) -> bool {
        self.accessible(addr, len, true)
    }

    /// The little-endian value of the `len` bytes at `addr`.
    pub open spec fn value_at(self, addr: u64, len: nat) -> int {
        le_value(self.bytes, addr - self.start, len)
    }

    /// The window with the bytes `data` at the addresses from `addr` on.
    pub open spec fn with_bytes(self, addr: u64, data: Seq<u8>) -> MemView {
        MemView {
            bytes: Seq::new(
                self.bytes.len(),
                |i: int|
                    if addr - self.start <= i < addr - self.start + data.len() {
                        data[i - (addr - self.start)]
                    } else {
                        self.bytes[i]
                    },
            ),
            ..self
        }
    }

    /// The window with the protection `p` on the `len` bytes from `addr`
    /// on.
    pub open spec fn with_prot(self, addr: u64, len: nat, p: u8) -> MemView {
        MemView {
            prot: Seq::new(
                self.prot.len(),
                |i: int|
                    if addr - self.start <= i < addr - self.start + len {
                        p
                    } else {
                        self.prot[i]
                    },
            ),
            ..self
        }
    }

    /// The window extended by `n` zero bytes with the protection `p`.
    pub open spec fn grown(self, n: nat, p: u8) -> MemView {
        MemView {
            bytes: self.bytes + Seq::new(n, |i: int| 0u8),
            prot: self.prot + Seq::new(n, |i: int| p),
            ..self
        }
    }

    /// The window without its last `n` bytes.
    pub open spec fn shrunk(self, n: nat) -> MemView {
        MemView {
            bytes: self.bytes.subrange(0, self.bytes.len() - n),
            prot: self.prot.subrange(0, self.prot.len() - n),
            ..self
        }
    }

    /// The window after the low `len` bytes of `v` are stored at `addr`.
    pub open spec fn stored(self, addr: u64, v: u64, len: nat) -> MemView {
        MemView { bytes: le_store(self.bytes, addr - self.start, v, len), ..self }
    }
}

/// A window of guest memory: `bytes[i]` is the byte at guest address
/// `start + i`, and `prot[i]` is its protection: the sum of 1 if it may be
/// read, 2 if it may be written and 4 if it may be executed.
pub struct GuestMemory {
    pub start: u64,
    pub bytes: Vec<u8>,
    pub prot: Vec<u8>,
}

impl View for GuestMemory {
    type V = MemView;

    open spec fn view(&self) -> MemView {
        MemView { start: self.start, bytes: self.bytes@, prot: self.prot@ }
    }
}

impl GuestMemory {
    /// An empty window at address 0.
    pub fn new() -> (r: Self)
        ensures
            r.start == 0,
            r.bytes@ == Seq::<u8>::empty(),
            r.prot@ == Seq::<u8>::empty(),
            r@.wf(),
    {
        GuestMemory { start: 0, bytes: Vec::new(), prot: Vec::new() }
    }

    /// First guest address past the window.
    pub fn end(&self) -> (r: u64)
        requires
            self@.wf(),
        ensures
            r == self@.end(),
    {
        self.start + self.bytes.len() as u64
    }

    /// Whether the `len` bytes at `addr` lie inside the window.
    pub fn is_mapped(&self, addr: u64, len: u64) -> (r: bool)
        requires
            self@.wf(),
        ensures
            r == self@.mapped(addr, len as nat),
    {
        let n: u64 = self.bytes.len() as u64;
        addr >= self.start && addr - self.start <= n && len <= n - (addr - self.start)
    }

    /// Whether the `len` bytes at `addr` lie inside the window and may all
    /// be accessed: written if `write`, else read.
    pub fn is_accessible(&self, addr: u64, len: u64, write: bool) -> (r: bool)
        requires
            self@.wf(),
        ensures
            r == self@.accessible(addr, len as nat, write),
    {
        if !self.is_mapped(addr, len) {
            return false;
        }
        assert(self.bytes@.len() == self.bytes.len());
        let at: usize = (addr - self.start) as usize;
        let count: usize = len as usize;
        let mut k: usize = 0;
        while k < count
            invariant
                k <= count,
                count == len,
                at == addr - self.start,
                at + count <= self.prot@.len() <= usize::MAX,
                forall|i: int| at <= i < at + k ==> permits(#[trigger] self.prot@[i], write),
            decreases count - k,
        {
            let p: u8 = self.prot[at + k];
            let allowed: bool = if write {
                p / 2 % 2 == 1
            } else {
                p % 2 == 1
            };
            if !allowed {
                assert(!permits(self@.prot[at + k], write));
                return false;
            }
            k = k + 1;
        }
        true
    }

    /// Whether the `len` bytes at `addr` may be read.
    pub fn is_readable(&self, addr: u64, len: u64) -> (r: bool)
        requires
            self@.wf(),
        ensures
            r == self@.readable(addr, len as nat),
    {
        self.is_accessible(addr, len, false)
    }

    /// Whether the `len` bytes at `addr` may be written.
    pub fn is_writable(&self, addr: u64, len: u64) -> (r: bool)
        requires
            self@.wf(),
        ensures
            r == self@.writable(addr, len as nat),
    {
        self.is_accessible(addr, len, true)
    }

    /// The byte at `addr`.
    pub fn read_u8(&self, addr: u64) -> (r: u8)
        requires
            self@.mapped(addr, 1),
        ensures
            r == self@.value_at(addr, 1),
    {
        reveal_with_fuel(le_value, 2);
        assert(self.bytes@.len() == self.bytes.len());
        let i: usize = (addr - self.start) as usize;
        self.bytes[i]
    }

    /// The halfword at `addr`.
    pub fn read_u16(&self, addr: u64) -> (r: u16)
        requires
            self@.mapped(addr, 2),
        ensures
            r == self@.value_at(addr, 2),
    {
        assert(self.bytes@.len() == self.bytes.len());
        le_u16(&self.bytes, (addr - self.start) as usize)
    }

    /// The word at `addr`.
    pub fn read_u32(&self, addr: u64) -> (r: u32)
        requires
            self@.mapped(addr, 4),
        ensures
            r == self@.value_at(addr, 4),
    {
        assert(self.bytes@.len() == self.bytes.len());
        le_u32(&self.bytes, (addr - self.start) as usize)
    }

    /// The doubleword at `addr`.
    pub fn read_u64(&self, addr: u64) -> (r: u64)
        requires
            self@.mapped(addr, 8),
        ensures
            r == self@.value_at(addr, 8),
    {
        assert(self.bytes@.len() == self.bytes.len());
        le_u64(&self.bytes, (addr - self.start) as usize)
    }

    /// Stores the low `len` bytes of `v` at `addr`, least significant first.
    pub fn write(&mut self, addr: u64, v: u64, len: usize)
        requires
            old(self)@.mapped(addr, len as nat),
            len <= 8,
        ensures
            final(self)@ == old(self)@.stored(addr, v, len as nat),
    {
        assert(self.bytes@.len() == self.bytes.len());
        let at: usize = (addr - self.start) as usize;
        let mut k: usize = 0;
        let mut rest: u64 = v;
        while k < len
            invariant
                k <= len <= 8,
                at + len <= self.bytes@.len(),
                self.start == old(self).start,
                self.prot == old(self).prot,
                self.bytes@.len() == old(self).bytes@.len(),
                self.bytes@.len() <= usize::MAX,
                at == addr - self.start,
                self.bytes@ == le_store(old(self).bytes@, at as int, v, k as nat),
                rest == shifted(v, k as nat),
            decreases len - k,
        {
            let b: u8 = (rest % 0x100) as u8;
            self.bytes[at + k] = b;
            rest = rest / 0x100;
            k = k + 1;
            assert(self.bytes@ =~= le_store(old(self).bytes@, at as int, v, k as nat));
        }
    }

    /// Extends the window by `n` zero bytes with the protection `p`.
    pub fn grow(&mut self, n: usize, p: u8)
        requires
            old(self)@.wf(),
            old(self).bytes@.len() + n <= usize::MAX,
        ensures
            final(self)@ == old(self)@.grown(n as nat, p),
    {
        let mut k: usize = 0;
        assert(self@.bytes =~= old(self)@.grown(k as nat, p).bytes);
        assert(self@.prot =~= old(self)@.grown(k as nat, p).prot);
        while k < n
            invariant
                k <= n,
                old(self).bytes@.len() + n <= usize::MAX,
                self@ == old(self)@.grown(k as nat, p),
            decreases n - k,
        {
            self.bytes.push(0);
            self.prot.push(p);
            k = k + 1;
            assert(self@.bytes =~= old(self)@.grown(k as nat, p).bytes);
            assert(self@.prot =~= old(self)@.grown(k as nat, p).prot);
        }
    }

    /// Cuts the last `n` bytes off the window.
    pub fn shrink(&mut self, n: usize)
        requires
            old(self)@.wf(),
            n <= old(self).bytes@.len(),
        ensures
            final(self)@ == old(self)@.shrunk(n as nat),
    {
        let len: usize = self.bytes.len();
        self.bytes.truncate(len - n);
        self.prot.truncate(len - n);
    }

    /// Gives the `len` bytes from `addr` on the protection `p`.
    pub fn protect(&mut self, addr: u64, len: usize, p: u8)
        requires
            old(self)@.wf(),
            old(self)@.mapped(addr, len as nat),
        ensures
            final(self)@ == old(self)@.with_prot(addr, len as nat, p),
    {
        assert(self.prot@.len() == self.prot.len());
        let at: usize = (addr - self.start) as usize;
        let mut k: usize = 0;
        assert(self@.prot =~= old(self)@.with_prot(addr, k as nat, p).prot);
        while k < len
            invariant
                k <= len,
                at + len <= self.prot@.len() <= usize::MAX,
                at == addr - self.start,
                self@ == old(self)@.with_prot(addr, k as nat, p),
            decreases len - k,
        {
            self.prot[at + k] = p;
            k = k + 1;
            assert(self@.prot =~= old(self)@.with_prot(addr, k as nat, p).prot);
        }
    }

    /// Copies `data[from .. from + len]` to the addresses from `addr` on.
    pub fn copy_in(&mut self, addr: u64, data: &Vec<u8>, from: usize, len: usize)
        requires
            old(self)@.mapped(addr, len as nat),
            from + len <= data@.len(),
        ensures
            final(self)@ == old(self)@.with_bytes(addr, data@.subrange(from as int, from + len)),
    {
        assert(self.bytes@.len() == self.bytes.len());
        assert(data@.len() == data.len());
        let at: usize = (addr - self.start) as usize;
        let mut k: usize = 0;
        assert(self@.bytes =~= old(self)@.with_bytes(
            addr,
            data@.subrange(from as int, from + k),
        ).bytes);
        while k < len
            invariant
                k <= len,
                at + len <= self.bytes@.len() <= usize::MAX,
                data@.len() <= usize::MAX,
                from + len <= data@.len(),
                at == addr - self.start,
                self.start == old(self).start,
                self@ == old(self)@.with_bytes(addr, data@.subrange(from as int, from + k)),
            decreases len - k,
        {
            self.bytes[at + k] = data[from + k];
            k = k + 1;
            assert(self@.bytes =~= old(self)@.with_bytes(
                addr,
                data@.subrange(from as int, from + k),
            ).bytes);
        }
    }

    /// Writes `len` zero bytes from `addr` on.
    pub fn fill_zero(&mut self, addr: u64, len: usize)
        requires
            old(self)@.mapped(addr, len as nat),
        ensures
            final(self)@ == old(self)@.with_bytes(addr, Seq::new(len as nat, |i: int| 0u8)),
    {
        assert(self.bytes@.len() == self.bytes.len());
        let at: usize = (addr - self.start) as usize;
        let mut k: usize = 0;
        assert(self@.bytes =~= old(self)@.with_bytes(
            addr,
            Seq::new(k as nat, |i: int| 0u8),
        ).bytes);
        while k < len
            invariant
                k <= len,
                at + len <= self.bytes@.len() <= usize::MAX,
                at == addr - self.start,
                self.start == old(self).start,
                self@ == old(self)@.with_bytes(addr, Seq::new(k as nat, |i: int| 0u8)),
            decreases len - k,
        {
            self.bytes[at + k] = 0;
            k = k + 1;
            assert(self@.bytes =~= old(self)@.with_bytes(
                addr,
                Seq::new(k as nat, |i: int| 0u8),
            ).bytes);
        }
    }
}

/// `v` with its `k` low bytes dropped.
pub open spec fn shifted(v: u64, k: nat) -> u64 {
    if k == 0 {
        v
    } else if k == 1 {
        v / 0x100
    } else if k == 2 {
        v / 0x1_0000
    } else if k == 3 {
        v / 0x100_0000
    } else if k == 4 {
        v / 0x1_0000_0000
    } else if k == 5 {
        v / 0x100_0000_0000
    } else if k == 6 {
        v / 0x1_0000_0000_0000
    } else if k == 7 {
        v / 0x100_0000_0000_0000
    } else {
        0
    }
}

} // verus!
