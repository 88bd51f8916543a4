//! The W25QxxxJV driver state, the instruction frames of each operation and
//! the splitting of long writes into page programs.

use vstd::prelude::*;
use crate::w25qxxxjv::regs::{
    Model, StatusRegister, W25QXXXJV_MANUFACTURER_DEVICE_ID, W25QXXXJV_MANUFACTURER_ID,
    W25QXXXJV_PAGE_PROGRAM, W25QXXXJV_READ_DATA, W25QXXXJV_SECTOR_ERASE,
};

verus! {

/// An address on the flash. The largest model has a 24-bit address space.
pub type Wusize = u32;

/// Errors of the flash driver.
#[derive(Debug)]
pub enum Error<SE, PE> {
    Spi(SE),
    Pin(PE),
    ModelMismatch,
    OutOfBounds,
}

/// A W25QxxxJV on an SPI bus `S`, with chip-select pin `CS` and a delay
/// source `D`.
pub struct W25qxxxjv<'a, S, CS, D> {
    spi: S,
    cs: CS,
    model: Model,
    delay: &'a mut D,
}

/// One page program of a longer write: the bytes `start..end` of the buffer
/// go to flash address `addr`.
#[derive(Clone, Copy, Debug, PartialEq, Eq, Structural)]
pub struct PageWrite {
    pub addr: Wusize,
    pub start: usize,
    pub end: usize,
}

/// An instruction followed by a 24-bit address, most significant byte first.
pub open spec fn addressed(instruction: u8, addr: Wusize) -> Seq<u8> {
    seq![instruction, ((addr / 0x1_0000) % 0x100) as u8, ((addr / 0x100) % 0x100) as u8, (addr % 0x100) as u8]
}

/// Whether `len` bytes from `addr` lie within a flash of `capacity` bytes,
/// as the driver checks it: the first and the last byte are in bounds.
pub open spec fn slice_fits(capacity: Wusize, addr: Wusize, len: usize) -> bool {
    addr < capacity && addr + (len as Wusize) - 1 < capacity
}

/// The range check computes `addr + len - 1` in 32 bits once `addr` is in
/// bounds; this holds where that computation neither overflows nor
/// underflows.
pub open spec fn slice_check_defined(capacity: Wusize, addr: Wusize, len: usize) -> bool {
    addr < capacity ==> 0 < addr + (len as Wusize) <= Wusize::MAX
}

/// The room left in the page of address `a`.
pub open spec fn page_room(a: int) -> int {
    0x100 - a % 0x100
}

/// `plan` is the sequence of page programs that writes `len` bytes at `addr`:
/// consecutive pieces of the buffer, in order, each going to its own address
/// and each as long as it can be without leaving its page.
pub open spec fn is_page_plan(plan: Seq<PageWrite>, addr: Wusize, len: usize) -> bool {
    &&& (plan.len() == 0 <==> len == 0)
    &&& plan.len() > 0 ==> plan[0].start == 0 && plan.last().end == len
    &&& forall|i: int| 0 <= i < plan.len() - 1 ==> #[trigger] plan[i].end == plan[i + 1].start
    &&& forall|i: int|
        0 <= i < plan.len() ==> {
            let w = #[trigger] plan[i];
            &&& w.start < w.end <= len
            &&& w.addr == addr + w.start
            &&& w.end - w.start == if page_room(w.addr as int) <= len - w.start {
                page_room(w.addr as int)
            } else {
                len - w.start
            }
        }
}

impl<'a, S, CS, D> W25qxxxjv<'a, S, CS, D> {
    /// The SPI bus the driver owns.
    pub closed spec fn bus(&self) -> S {
        self.spi
    }

    /// The chip-select pin.
    pub closed spec fn chip_select(&self) -> CS {
        self.cs
    }

    /// The model of the chip.
    pub closed spec fn chip_model(&self) -> Model {
        self.model
    }

    /// The delay source.
    pub closed spec fn delay_source(&self) -> D {
        *self.delay
    }

    /// The capacity of the chip in bytes.
    pub open spec fn spec_capacity(&self) -> Wusize {
        self.chip_model().spec_capacity()
    }

    pub fn new(spi: S, cs: CS, model: Model, delay: &'a mut D) -> (r: Self)
        ensures
            r.bus() == spi,
            r.chip_select() == cs,
            r.chip_model() == model,
            r.delay_source() == *old(delay),
    {
        Self { spi, cs, model, delay }
    }

    /// Gives the SPI bus back.
    pub fn destroy(self) -> (r: S)
        ensures
            r == self.bus(),
    {
        self.spi
    }

    /// The model of the chip.
    pub fn model(&self) -> (r: Model)
        ensures
            r == self.chip_model(),
    {
        self.model
    }

    /// Lends the SPI bus out to carry out a transfer.
    pub fn spi_mut(&mut self) -> (r: &mut S)
        ensures
            *r == old(self).bus(),
            final(self).bus() == *final(r),
            final(self).chip_select() == old(self).chip_select(),
            final(self).chip_model() == old(self).chip_model(),
    {
        &mut self.spi
    }

    /// Lends the chip-select pin out to drive it.
    pub fn cs_mut(&mut self) -> (r: &mut CS)
        ensures
            *r == old(self).chip_select(),
            final(self).chip_select() == *final(r),
            final(self).bus() == old(self).bus(),
            final(self).chip_model() == old(self).chip_model(),
    {
        &mut self.cs
    }

    /// Lends the delay source out to wait.
    pub fn delay_mut(&mut self) -> (r: &mut D)
        ensures
            *r == old(self).delay_source(),
            final(self).delay_source() == *final(r),
            final(self).bus() == old(self).bus(),
            final(self).chip_select() == old(self).chip_select(),
            final(self).chip_model() == old(self).chip_model(),
    {
        &mut *self.delay
    }

    /// Whether an address lies on the chip.
    pub fn in_bounds(&self, addr: Wusize) -> (r: bool)
        ensures
            r == (addr < self.spec_capacity()),
    {
        addr < self.model.capacity()
    }

    /// Whether `len` bytes from `addr` lie on the chip.
    pub fn slice_in_bounds(&self, addr: Wusize, len: usize) -> (r: bool)
        requires
            slice_check_defined(self.spec_capacity(), addr, len),
        ensures
            r == slice_fits(self.spec_capacity(), addr, len),
    {
        self.in_bounds(addr) && self.in_bounds(addr + len as Wusize - 1)
    }

    /// The frame that starts a read of `len` bytes from `addr`.
    pub fn read_data_command<SE, PE>(&self, addr: Wusize, len: usize) -> (r: Result<[u8; 4], Error<SE, PE>>)
        requires
            slice_check_defined(self.spec_capacity(), addr, len),
        ensures
            slice_fits(self.spec_capacity(), addr, len) <==> r is Ok,
            r matches Ok(frame) ==> frame@ == addressed(W25QXXXJV_READ_DATA, addr),
            r matches Err(e) ==> e is OutOfBounds,
    {
        if !self.slice_in_bounds(addr, len) {
            return Err(Error::OutOfBounds);
        }
        Ok(addressed_frame(W25QXXXJV_READ_DATA, addr))
    }

    /// The frame that starts a page program of `len` bytes at `addr`. The
    /// chip programs within the page of `addr`: bytes past the end of that
    /// page wrap around to its start, so callers that write more than the
    /// page holds split the write first (see `write_data_plan`).
    pub fn page_program_command<SE, PE>(&self, addr: Wusize, len: usize) -> (r: Result<[u8; 4], Error<SE, PE>>)
        requires
            slice_check_defined(self.spec_capacity(), addr, len),
        ensures
            slice_fits(self.spec_capacity(), addr, len) <==> r is Ok,
            r matches Ok(frame) ==> frame@ == addressed(W25QXXXJV_PAGE_PROGRAM, addr),
            r matches Err(e) ==> e is OutOfBounds,
    {
        if !self.slice_in_bounds(addr, len) {
            return Err(Error::OutOfBounds);
        }
        Ok(addressed_frame(W25QXXXJV_PAGE_PROGRAM, addr))
    }

    /// Splits a write of `len` bytes at `addr` into page programs, each of
    /// which stays within one page. (Buffer lengths are 32-bit on the
    /// flight computer.)
    pub fn write_data_plan<SE, PE>(&self, addr: Wusize, len: usize) -> (r: Result<Vec<PageWrite>, Error<SE, PE>>)
        requires
            slice_check_defined(self.spec_capacity(), addr, len),
            len <= Wusize::MAX,
        ensures
            slice_fits(self.spec_capacity(), addr, len) <==> r is Ok,
            r matches Ok(plan) ==> is_page_plan(plan@, addr, len),
            r matches Err(e) ==> e is OutOfBounds,
    {
        if !self.slice_in_bounds(addr, len) {
            return Err(Error::OutOfBounds);
        }
        let ghost cap = self.spec_capacity();
        proof {
            crate::w25qxxxjv::regs::lemma_capacity_bounds(self.chip_model());
        }
        let mut plan: Vec<PageWrite> = Vec::new();
        let mut cur: Wusize = addr;
        let mut buf_index: usize = 0;
        while buf_index < len
            invariant
                buf_index <= len,
                cur == addr + buf_index,
                addr + len <= cap + 1,
                cap <= 0x100_0000,
                plan@.len() == 0 <==> buf_index == 0,
                plan@.len() > 0 ==> plan@[0].start == 0 && plan@.last().end == buf_index,
                forall|i: int| 0 <= i < plan@.len() - 1 ==> #[trigger] plan@[i].end == plan@[i + 1].start,
                forall|i: int|
                    0 <= i < plan@.len() ==> {
                        let w = #[trigger] plan@[i];
                        &&& w.start < w.end <= buf_index
                        &&& w.addr == addr + w.start
                        &&& w.end - w.start == if page_room(w.addr as int) <= len - w.start {
                            page_room(w.addr as int)
                        } else {
                            len - w.start
                        }
                    },
            decreases len - buf_index,
        {
            let room: Wusize = 0x100 - (cur % 0x100);
            let left: Wusize = (len - buf_index) as Wusize;
            let remaining: Wusize = if room < left { room } else { left };
            let ghost old_plan = plan@;
            let end: usize = buf_index + remaining as usize;
            plan.push(PageWrite { addr: cur, start: buf_index, end });
            proof {
                assert forall|i: int| 0 <= i < plan@.len() - 1 implies #[trigger] plan@[i].end == plan@[i + 1].start by {
                    if i < old_plan.len() - 1 {
                        assert(plan@[i] == old_plan[i]);
                        assert(plan@[i + 1] == old_plan[i + 1]);
                    }
                }
            }
            cur = cur + remaining;
            buf_index = end;
        }
        Ok(plan)
    }

    /// Whether the ids read back identify the expected chip.
    pub fn check_ids<SE, PE>(&self, mfr_id: u8, dev_id: u8) -> (r: Result<(), Error<SE, PE>>)
        ensures
            r is Ok <==> (mfr_id == W25QXXXJV_MANUFACTURER_ID && dev_id
                == self.chip_model().spec_device_id()),
            r matches Err(e) ==> e is ModelMismatch,
    {
        if mfr_id != W25QXXXJV_MANUFACTURER_ID || dev_id != self.model.device_id() {
            return Err(Error::ModelMismatch);
        }
        Ok(())
    }
}

/// One step of bringing the chip up.
#[derive(Clone, Copy, Debug, PartialEq, Eq, Structural)]
pub enum InitStep {
    /// Drive chip select high (deselect the chip).
    CsHigh,
    /// Wait this many milliseconds.
    DelayMs(u32),
    /// Read the manufacturer and device id and check them (`check_ids`).
    ReadIds,
}

/// Bringing the chip up: deselect it, give chip select 5 ms to settle, then
/// read and check its ids.
pub open spec fn spec_init_steps() -> Seq<InitStep> {
    seq![InitStep::CsHigh, InitStep::DelayMs(5), InitStep::ReadIds]
}

/// The steps that bring the chip up, in order.
pub fn init_steps() -> (r: Vec<InitStep>)
    ensures
        r@ == spec_init_steps(),
{
    let r = vec![InitStep::CsHigh, InitStep::DelayMs(5), InitStep::ReadIds];
    assert(r@ =~= spec_init_steps());
    r
}

/// An instruction followed by a 24-bit address.
pub fn addressed_frame(instruction: u8, addr: Wusize) -> (r: [u8; 4])
    ensures
        r@ == addressed(instruction, addr),
{
    let r = [
        instruction,
        ((addr / 0x1_0000) % 0x100) as u8,
        ((addr / 0x100) % 0x100) as u8,
        (addr % 0x100) as u8,
    ];
    assert(r@ =~= addressed(instruction, addr));
    r
}

/// The start of the sector that holds `addr`.
pub open spec fn sector_start(addr: Wusize) -> Wusize {
    (addr - addr % 0x1000) as Wusize
}

/// The frame that erases the 4 KiB sector holding `addr` (the address is
/// aligned down to its sector).
pub fn sector_erase_command(addr: Wusize) -> (r: [u8; 4])
    ensures
        r@ == addressed(W25QXXXJV_SECTOR_ERASE, sector_start(addr)),
{
    let aligned = addr & !0x0fff;
    assert(addr & !0x0fffu32 == (addr - addr % 0x1000) as u32) by (bit_vector);
    addressed_frame(W25QXXXJV_SECTOR_ERASE, aligned)
}

/// The frame that reads the manufacturer and device id.
pub fn manufacturer_device_id_command() -> (r: [u8; 4])
    ensures
        r@ == seq![W25QXXXJV_MANUFACTURER_DEVICE_ID, 0u8, 0u8, 0u8],
{
    let r = [W25QXXXJV_MANUFACTURER_DEVICE_ID, 0x00, 0x00, 0x00];
    assert(r@ =~= seq![W25QXXXJV_MANUFACTURER_DEVICE_ID, 0u8, 0u8, 0u8]);
    r
}

/// The instruction that reads a status register.
pub fn status_register_command(reg: StatusRegister) -> (r: u8)
    ensures
        r == reg.spec_byte_read(),
{
    reg.byte_read()
}

/// Whether a value of status register 1 reports the chip busy (bit 0).
pub fn is_busy(sr1: u8) -> (r: bool)
    ensures
        r == (sr1 % 2 == 1),
{
    assert(((sr1 & 0x01) != 0x00) == (sr1 % 2 == 1)) by (bit_vector);
    (sr1 & 0x01) != 0x00
}

/// A sector erase clears the whole sector that holds the given address: the
/// erased range starts at a sector boundary at or below it.
pub proof fn lemma_sector_start(addr: Wusize)
    ensures
        sector_start(addr) % 0x1000 == 0,
        sector_start(addr) <= addr < sector_start(addr) + 0x1000,
{
}

/// No page program of a plan leaves its page, and together they cover
/// exactly the addresses `addr..addr+len`, which lie on the chip.
pub proof fn lemma_page_plan_within_pages(plan: Seq<PageWrite>, addr: Wusize, len: usize, i: int)
    requires
        is_page_plan(plan, addr, len),
        0 <= i < plan.len(),
    ensures
        plan[i].addr / 0x100 == (plan[i].addr + (plan[i].end - plan[i].start) - 1) / 0x100,
        addr <= plan[i].addr,
        plan[i].addr + (plan[i].end - plan[i].start) <= addr + len,
{
    let w = plan[i];
    let a = w.addr as int;
    let n = (w.end - w.start) as int;
    assert(1 <= n <= 0x100 - a % 0x100);
    assert(a / 0x100 == (a + n - 1) / 0x100) by (nonlinear_arith)
        requires
            1 <= n <= 0x100 - a % 0x100,
            0 <= a,
    {
        assert(a == 0x100 * (a / 0x100) + a % 0x100);
        assert(0 <= a % 0x100 + n - 1 < 0x100);
    }
}

/// Some piece holds byte `k`: the pieces start at 0, follow each other and
/// end at `len`.
proof fn lemma_page_plan_prefix_covers(plan: Seq<PageWrite>, addr: Wusize, len: usize, k: int) -> (i: int)
    requires
        is_page_plan(plan, addr, len),
        0 <= k < len,
    ensures
        0 <= i < plan.len(),
        plan[i].start <= k < plan[i].end,
{
    // The first piece whose end exceeds `k`.
    let n = plan.len() as int;
    assert(plan[n - 1].end == len);
    let i = choose_first_end_above(plan, k, n);
    if i > 0 {
        assert(plan[i - 1].end == plan[i].start);
    } else {
        assert(plan[0].start == 0);
    }
    i
}

/// The least index below `n` whose piece ends above `k`, given that the
/// piece at `n - 1` does.
proof fn choose_first_end_above(plan: Seq<PageWrite>, k: int, n: int) -> (i: int)
    requires
        1 <= n <= plan.len(),
        plan[n - 1].end > k,
    ensures
        0 <= i < n,
        plan[i].end > k,
        i > 0 ==> plan[i - 1].end <= k,
    decreases n,
{
    if n == 1 {
        0
    } else if plan[n - 2].end > k {
        choose_first_end_above(plan, k, n - 1)
    } else {
        n - 1
    }
}

/// A write places every byte of the buffer at its own address: byte `k`
/// goes, in the piece that holds it, to address `addr + k`. A read of the
/// same range from `addr` therefore meets each byte where it was written.
pub proof fn lemma_page_plan_places_every_byte(plan: Seq<PageWrite>, addr: Wusize, len: usize, k: int)
    requires
        is_page_plan(plan, addr, len),
        0 <= k < len,
    ensures
        exists|i: int|
            #![trigger plan[i]]
            0 <= i < plan.len() && plan[i].start <= k < plan[i].end && plan[i].addr + (k - plan[i].start)
                == addr + k,
{
    let i = lemma_page_plan_prefix_covers(plan, addr, len, k);
    assert(plan[i].addr + (k - plan[i].start) == addr + k);
}

/// The contents of a memory after `bytes` were programmed at address `at`
/// of it (an ideal memory: each programmed byte takes the value written).
pub open spec fn program(mem: Seq<u8>, at: int, bytes: Seq<u8>) -> Seq<u8> {
    Seq::new(mem.len(), |a: int| if at <= a < at + bytes.len() { bytes[a - at] } else { mem[a] })
}

/// The contents of a memory after the page programs of `plan` wrote the
/// buffer `buf`, in order.
pub open spec fn apply_plan(mem: Seq<u8>, plan: Seq<PageWrite>, buf: Seq<u8>) -> Seq<u8>
    decreases plan.len(),
{
    if plan.len() == 0 {
        mem
    } else {
        let w = plan.last();
        program(apply_plan(mem, plan.drop_last(), buf), w.addr as int, buf.subrange(w.start as int, w.end as int))
    }
}

/// Applying consecutive pieces that start at the beginning of the buffer
/// writes the buffer up to the end of the last piece, and nothing else.
proof fn lemma_apply_consecutive(mem: Seq<u8>, plan: Seq<PageWrite>, buf: Seq<u8>, addr: int)
    requires
        plan.len() > 0,
        plan[0].start == 0,
        forall|i: int| 0 <= i < plan.len() - 1 ==> #[trigger] plan[i].end == plan[i + 1].start,
        forall|i: int|
            0 <= i < plan.len() ==> {
                let w = #[trigger] plan[i];
                &&& w.start < w.end <= buf.len()
                &&& w.addr == addr + w.start
            },
        0 <= addr,
        addr + buf.len() <= mem.len(),
    ensures
        apply_plan(mem, plan, buf).len() == mem.len(),
        forall|a: int|
            0 <= a < mem.len() ==> #[trigger] apply_plan(mem, plan, buf)[a] == if addr <= a < addr
                + plan.last().end {
                buf[a - addr]
            } else {
                mem[a]
            },
    decreases plan.len(),
{
    let n = plan.len() as int;
    let w = plan[n - 1];
    let prefix = plan.drop_last();
    let before = apply_plan(mem, prefix, buf);
    let bytes = buf.subrange(w.start as int, w.end as int);
    assert(apply_plan(mem, plan, buf) == program(before, w.addr as int, bytes));
    if n > 1 {
        assert forall|i: int| 0 <= i < prefix.len() - 1 implies #[trigger] prefix[i].end == prefix[i + 1].start by {
            assert(prefix[i] == plan[i] && prefix[i + 1] == plan[i + 1]);
        }
        assert forall|i: int| 0 <= i < prefix.len() implies {
            let v = #[trigger] prefix[i];
            &&& v.start < v.end <= buf.len()
            &&& v.addr == addr + v.start
        } by {
            assert(prefix[i] == plan[i]);
        }
        lemma_apply_consecutive(mem, prefix, buf, addr);
        assert(prefix.last().end == w.start) by {
            assert(plan[n - 2].end == plan[n - 1].start);
        }
        assert forall|a: int| 0 <= a < mem.len() implies #[trigger] apply_plan(mem, plan, buf)[a] == if addr
            <= a < addr + plan.last().end {
            buf[a - addr]
        } else {
            mem[a]
        } by {
            assert(before[a] == if addr <= a < addr + w.start {
                buf[a - addr]
            } else {
                mem[a]
            });
        }
    } else {
        assert(before == mem);
    }
}

/// What a write stores is what a read of the same range gives back: once the
/// page programs of a plan for `buf` at `addr` have been applied to a memory,
/// the bytes `addr..addr+len` of it are `buf`, and no other byte changed.
pub proof fn lemma_write_then_read(mem: Seq<u8>, plan: Seq<PageWrite>, addr: Wusize, buf: Seq<u8>)
    requires
        is_page_plan(plan, addr, buf.len() as usize),
        buf.len() <= usize::MAX,
        addr + buf.len() <= mem.len(),
    ensures
        apply_plan(mem, plan, buf).len() == mem.len(),
        apply_plan(mem, plan, buf).subrange(addr as int, addr + buf.len()) == buf,
        forall|a: int|
            0 <= a < mem.len() && !(addr <= a < addr + buf.len()) ==> #[trigger] apply_plan(mem, plan, buf)[a]
                == mem[a],
{
    if plan.len() == 0 {
        assert(buf.len() == 0);
        assert(apply_plan(mem, plan, buf).subrange(addr as int, addr + buf.len()) =~= buf);
    } else {
        lemma_apply_consecutive(mem, plan, buf, addr as int);
        let after = apply_plan(mem, plan, buf);
        assert(after.subrange(addr as int, addr + buf.len()) =~= buf) by {
            assert forall|k: int| 0 <= k < buf.len() implies after.subrange(addr as int, addr + buf.len())[k]
                == buf[k] by {
                assert(after[addr + k] == buf[k]);
            }
        }
    }
}

} // verus!
