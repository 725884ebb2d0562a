//! Which cache lines to clean or invalidate around a DMA transfer.
//!
//! The instructions themselves belong to the machine. Here stands the walk that says which of them
//! to run, on which addresses and in which order.
use vstd::arithmetic::div_mod::{
    lemma_div_is_ordered, lemma_fundamental_div_mod, lemma_fundamental_div_mod_converse,
};
use vstd::arithmetic::power2::{
    lemma2_to64, lemma_pow2_adds, lemma_pow2_pos, lemma_pow2_strictly_increases, pow2,
};
use vstd::bits::{lemma_usize_low_bits_mask_is_mod, lemma_usize_shl_is_mul};
use vstd::prelude::*;

verus! {

/// What to do with a range of the data cache.
#[derive(Debug, Clone, Copy, PartialEq, Eq, Structural)]
pub enum Maintenance {
    /// Write modified lines back to memory.
    Clean,
    /// Discard lines, so that the next read fetches from memory.
    Invalidate,
}

/// One instruction of a walk over a range.
#[derive(Debug, Clone, Copy, PartialEq, Eq, Structural)]
pub enum DcacheOp {
    /// Clean the line at this address to the point of coherency.
    Clean(usize),
    /// Invalidate the line at this address to the point of coherency.
    Invalidate(usize),
    /// Wait until what was done to the lines is complete and visible.
    Barrier,
}

/// The size in bytes of a data cache line, from the cache type register: four bytes for each word,
/// and as many words as two to the power of the four bits from bit 16 on.
pub open spec fn line_size(ctr: usize) -> nat {
    4 * pow2(((ctr / 0x1_0000) % 16) as nat)
}

/// The instruction that does the maintenance on one line.
pub open spec fn line_op(maintenance: Maintenance, line_addr: usize) -> DcacheOp {
    match maintenance {
        Maintenance::Clean => DcacheOp::Clean(line_addr),
        Maintenance::Invalidate => DcacheOp::Invalidate(line_addr),
    }
}

/// How many lines hold a byte of the range.
pub open spec fn line_count(line: nat, addr: nat, size: nat) -> nat
    recommends
        line > 0,
{
    if size == 0 {
        0
    } else {
        ((addr + size - 1) as nat / line - addr / line + 1) as nat
    }
}

/// The address of a line of the range, counted from the first.
pub open spec fn line_addr(line: nat, addr: nat, index: int) -> int {
    (addr / line + index) * line
}

/// The instructions for a range: one for each line that holds a byte of it, in ascending order, and
/// then a barrier. An empty range needs none.
pub open spec fn range_ops(maintenance: Maintenance, line: nat, addr: nat, size: nat) -> Seq<
    DcacheOp,
> {
    if size == 0 {
        Seq::empty()
    } else {
        Seq::new(
            line_count(line, addr, size),
            |i: int| line_op(maintenance, line_addr(line, addr, i) as usize),
        ).push(DcacheOp::Barrier)
    }
}

/// The instructions that are left from an address on.
spec fn ops_from(maintenance: Maintenance, line: nat, current: nat, end: nat) -> Seq<DcacheOp> {
    Seq::new(
        ((end - current) as nat / line),
        |i: int| line_op(maintenance, (current + i * line) as usize),
    ).push(DcacheOp::Barrier)
}

/// A walk over a range of the data cache, which yields its instructions one by one.
pub struct DcacheWalk {
    maintenance: Maintenance,
    line: usize,
    current: usize,
    end: usize,
    done: bool,
}

impl View for DcacheWalk {
    type V = Seq<DcacheOp>;

    /// The instructions that are still to come.
    closed spec fn view(&self) -> Seq<DcacheOp> {
        if self.done {
            Seq::empty()
        } else {
            ops_from(self.maintenance, self.line as nat, self.current as nat, self.end as nat)
        }
    }
}

/// Masking off the low bits of a number rounds it down to a multiple of the power of two.
proof fn lemma_mask_rounds_down(x: usize, line: usize, shift: nat)
    requires
        line == pow2(shift),
        shift < usize::BITS,
    ensures
        line > 0,
        x & !((line - 1) as usize) == (x as nat / line as nat) * line as nat,
{
    let mask = (line - 1) as usize;
    lemma_pow2_pos(shift);
    lemma_usize_low_bits_mask_is_mod(x, shift);
    assert(x & mask == x as nat % line as nat);
    assert((x & !mask) + (x & mask) == x) by (bit_vector);
    lemma_fundamental_div_mod(x as int, line as int);
    assert(line as int * (x as int / line as int) == (x as int / line as int) * line as int)
        by (nonlinear_arith);
}

/// The size of a line is a power of two that a register can count.
proof fn lemma_line_size(ctr: usize)
    ensures
        4 <= line_size(ctr) <= 0x2_0000,
        line_size(ctr) == pow2(((ctr / 0x1_0000) % 16) as nat + 2),
{
    let words = ((ctr / 0x1_0000) % 16) as nat;
    lemma2_to64();
    lemma_pow2_pos(words);
    lemma_pow2_adds(words, 2);
    if words < 15 {
        lemma_pow2_strictly_increases(words, 15);
    }
}

/// Reads the size of a data cache line off the value of the cache type register.
pub fn get_dcache_line_size(ctr: usize) -> (r: usize)
    ensures
        r == line_size(ctr),
        4 <= r <= 0x2_0000,
{
    let dminline: usize = (ctr >> 16) & 0xF;
    proof {
        assert((ctr >> 16) & 0xF == (ctr / 0x1_0000) % 16) by (bit_vector);
        lemma_line_size(ctr);
        lemma_usize_shl_is_mul(4, dminline);
    }
    4 << dminline
}

impl DcacheWalk {
    #[verifier::type_invariant]
    spec fn well_formed(self) -> bool {
        &&& self.line > 0
        &&& self.current <= self.end
        &&& (self.end - self.current) % self.line as int == 0
    }

    /// Plans the maintenance of a range, for the line size that the cache type register gives.
    fn plan(maintenance: Maintenance, ctr: usize, addr: usize, size: usize) -> (r: Self)
        requires
            size > 0 ==> addr + size + line_size(ctr) <= usize::MAX,
        ensures
            r@ == range_ops(maintenance, line_size(ctr), addr as nat, size as nat),
    {
        if size == 0 {
            return DcacheWalk { maintenance, line: 1, current: 0, end: 0, done: true };
        }
        let line: usize = get_dcache_line_size(ctr);
        let start: usize = addr & !(line - 1);
        let end: usize = (addr + size + line - 1) & !(line - 1);
        proof {
            let shift = ((ctr / 0x1_0000) % 16) as nat + 2;
            lemma_line_size(ctr);
            lemma_mask_rounds_down(addr, line, shift);
            lemma_mask_rounds_down((addr + size + line - 1) as usize, line, shift);
            lemma_plan(maintenance, line as nat, addr as nat, size as nat, start as nat, end as nat);
        }
        DcacheWalk { maintenance, line, current: start, end, done: false }
    }

    /// The next instruction to run, or `None` once the walk is complete.
    pub fn next(&mut self) -> (r: Option<DcacheOp>)
        ensures
            old(self)@.len() == 0 ==> r is None && final(self)@ == old(self)@,
            old(self)@.len() > 0 ==> r == Some(old(self)@[0]) && final(self)@ == old(self)@.skip(1),
    {
        proof {
            use_type_invariant(&*self);
        }
        if self.done {
            return None;
        }
        if self.current < self.end {
            let line_addr: usize = self.current;
            proof {
                lemma_step(
                    self.maintenance,
                    self.line as nat,
                    self.current as nat,
                    self.end as nat,
                );
            }
            self.current = self.current + self.line;
            match self.maintenance {
                Maintenance::Clean => Some(DcacheOp::Clean(line_addr)),
                Maintenance::Invalidate => Some(DcacheOp::Invalidate(line_addr)),
            }
        } else {
            self.done = true;
            Some(DcacheOp::Barrier)
        }
    }
}

/// The walk from the rounded start to the rounded end visits the lines of the range.
proof fn lemma_plan(
    maintenance: Maintenance,
    line: nat,
    addr: nat,
    size: nat,
    start: nat,
    end: nat,
)
    requires
        line > 0,
        size > 0,
        start == (addr / line) * line,
        end == ((addr + size + line - 1) as nat / line) * line,
    ensures
        start <= end,
        (end - start) % line as int == 0,
        ops_from(maintenance, line, start, end) == range_ops(maintenance, line, addr, size),
{
    let l = line as int;
    let first = addr as int / l;
    let last = (addr + size - 1) / l;
    let count = last + 1 - first;
    lemma_div_is_ordered(addr as int, addr + size - 1, l);
    lemma_fundamental_div_mod(addr + size - 1, l);
    assert(addr + size - 1 + l == (last + 1) * l + (addr + size - 1) % l) by (nonlinear_arith)
        requires
            addr + size - 1 == l * last + (addr + size - 1) % l,
    ;
    lemma_fundamental_div_mod_converse(addr + size - 1 + l, l, last + 1, (addr + size - 1) % l);
    assert(end - start == count * l) by (nonlinear_arith)
        requires
            end == (last + 1) * l,
            start == first * l,
            count == last + 1 - first,
    ;
    assert(count * l >= 0) by (nonlinear_arith)
        requires
            count >= 0,
            l > 0,
    ;
    lemma_fundamental_div_mod_converse(end - start, l, count, 0);
    assert forall|i: int| start + i * l == line_addr(line, addr, i) by {
        assert(first * l + i * l == (first + i) * l) by (nonlinear_arith);
    }
    assert(ops_from(maintenance, line, start, end) =~= range_ops(maintenance, line, addr, size));
}

/// A line that is left is the first of those that are left, and the others follow it.
proof fn lemma_step(maintenance: Maintenance, line: nat, current: nat, end: nat)
    requires
        line > 0,
        current < end,
        (end - current) % line as int == 0,
    ensures
        current + line <= end,
        (end - (current + line)) % line as int == 0,
        ops_from(maintenance, line, current, end)[0] == line_op(maintenance, current as usize),
        ops_from(maintenance, line, current + line, end) == ops_from(
            maintenance,
            line,
            current,
            end,
        ).skip(1),
{
    let l = line as int;
    let count = (end - current) / l;
    lemma_fundamental_div_mod(end - current, l);
    assert(count >= 1 && l * count == l + (count - 1) * l && (count - 1) * l >= 0)
        by (nonlinear_arith)
        requires
            l * count > 0,
            l > 0,
    ;
    lemma_fundamental_div_mod_converse(end - (current + line), l, count - 1, 0);
    let before = ops_from(maintenance, line, current, end);
    let after = ops_from(maintenance, line, current + line, end);
    assert forall|i: int| 0 <= i < after.len() implies after[i] == before.skip(1)[i] by {
        assert(current + line + i * l == current + (i + 1) * l) by (nonlinear_arith)
            requires
                line == l,
        ;
    }
    assert(after =~= before.skip(1));
}

/// Plans to clean (write back) the data cache over a range of addresses, as it has to be done
/// before a device reads the range from memory. Modified lines are written back and stay in the
/// cache. The end of the range, which is rounded up to a line, has to lie in the address space.
pub fn clean_dcache_range(ctr: usize, addr: usize, size: usize) -> (r: DcacheWalk)
    requires
        size > 0 ==> addr + size + line_size(ctr) <= usize::MAX,
    ensures
        r@ == range_ops(Maintenance::Clean, line_size(ctr), addr as nat, size as nat),
{
    DcacheWalk::plan(Maintenance::Clean, ctr, addr, size)
}

/// Plans to invalidate (discard) the data cache over a range of addresses, as it has to be done
/// after a device wrote the range to memory. Later reads fetch from memory. The end of the range,
/// which is rounded up to a line, has to lie in the address space.
pub fn invalidate_dcache_range(ctr: usize, addr: usize, size: usize) -> (r: DcacheWalk)
    requires
        size > 0 ==> addr + size + line_size(ctr) <= usize::MAX,
    ensures
        r@ == range_ops(Maintenance::Invalidate, line_size(ctr), addr as nat, size as nat),
{
    DcacheWalk::plan(Maintenance::Invalidate, ctr, addr, size)
}

} // verus!
