//! What holds of the lines that cache maintenance visits.
use vstd::arithmetic::div_mod::{lemma_div_is_ordered, lemma_fundamental_div_mod};
use vstd::arithmetic::power2::{lemma2_to64, lemma_pow2_adds};
use vstd::prelude::*;

use crate::dcache::{
    clean_dcache_range, get_dcache_line_size, invalidate_dcache_range, line_addr, line_count,
    range_ops, DcacheOp, DcacheWalk, Maintenance,
};

verus! {

/// Every byte of the range lies in exactly one of the lines that are visited.
pub proof fn law_every_byte_is_covered_once(line: nat, addr: nat, size: nat, byte: nat)
    requires
        line > 0,
        addr <= byte < addr + size,
    ensures
        exists|i: int|
            0 <= i < line_count(line, addr, size) && #[trigger] line_addr(line, addr, i) <= byte
                < line_addr(line, addr, i) + line,
        forall|i: int, j: int|
            (#[trigger] line_addr(line, addr, i)) <= byte < line_addr(line, addr, i) + line
                && (#[trigger] line_addr(line, addr, j)) <= byte < line_addr(line, addr, j) + line
                ==> i == j,
{
    let l = line as int;
    let first = addr as int / l;
    let holder = byte as int / l;
    lemma_div_is_ordered(addr as int, byte as int, l);
    lemma_div_is_ordered(byte as int, addr + size - 1, l);
    lemma_fundamental_div_mod(byte as int, l);
    let index = holder - first;
    assert(line_addr(line, addr, index) == l * holder) by (nonlinear_arith)
        requires
            line_addr(line, addr, index) == (first + index) * line,
            index == holder - first,
            l == line,
    ;
    assert(line_addr(line, addr, index) <= byte < line_addr(line, addr, index) + line);
    assert forall|i: int, j: int|
        (#[trigger] line_addr(line, addr, i)) <= byte < line_addr(line, addr, i) + line && (
        #[trigger] line_addr(line, addr, j)) <= byte < line_addr(line, addr, j) + line implies i
        == j by {
        assert(i == j) by (nonlinear_arith)
            requires
                l > 0,
                (first + i) * l <= byte < (first + i) * l + l,
                (first + j) * l <= byte < (first + j) * l + l,
        ;
    }
}

/// Every line that is visited holds a byte of the range: no other line is touched.
pub proof fn law_no_other_line_is_touched(line: nat, addr: nat, size: nat, index: int)
    requires
        line > 0,
        0 <= index < line_count(line, addr, size),
    ensures
        line_addr(line, addr, index) < addr + size,
        addr < line_addr(line, addr, index) + line,
{
    let l = line as int;
    let first = addr as int / l;
    let last = (addr + size - 1) / l;
    lemma_div_is_ordered(addr as int, addr + size - 1, l);
    lemma_fundamental_div_mod(addr as int, l);
    lemma_fundamental_div_mod(addr + size - 1, l);
    assert((first + index) * l <= last * l) by (nonlinear_arith)
        requires
            first + index <= last,
            l > 0,
    ;
    assert(first * l <= (first + index) * l) by (nonlinear_arith)
        requires
            index >= 0,
            l > 0,
    ;
    assert(l * last == last * l && l * first == first * l) by (nonlinear_arith);
}

/// The lines are visited in ascending order, each once, without a gap, and each at the address
/// where it begins.
pub proof fn law_lines_ascend(line: nat, addr: nat, index: int)
    requires
        line > 0,
    ensures
        line_addr(line, addr, index + 1) == line_addr(line, addr, index) + line,
        line_addr(line, addr, index) % line as int == 0,
{
    let first = addr as int / line as int;
    assert((first + (index + 1)) * line == (first + index) * line + line) by (nonlinear_arith);
    vstd::arithmetic::div_mod::lemma_mod_multiples_basic(first + index, line as int);
}

/// A walk over a range that is not empty ends with its only barrier; one over an empty range does
/// nothing at all.
pub proof fn law_barrier_closes_the_walk(
    maintenance: Maintenance,
    line: nat,
    addr: nat,
    size: nat,
    index: int,
)
    requires
        0 <= index < range_ops(maintenance, line, addr, size).len(),
    ensures
        size > 0,
        range_ops(maintenance, line, addr, size)[index] is Barrier <==> index == range_ops(
            maintenance,
            line,
            addr,
            size,
        ).len() - 1,
{
}

/// Cleaning and invalidating a range visit the same lines in the same order.
pub proof fn law_clean_and_invalidate_agree(line: nat, addr: nat, size: nat, index: int)
    requires
        0 <= index < line_count(line, addr, size),
    ensures
        range_ops(Maintenance::Clean, line, addr, size).len() == range_ops(
            Maintenance::Invalidate,
            line,
            addr,
            size,
        ).len(),
        range_ops(Maintenance::Clean, line, addr, size)[index] == DcacheOp::Clean(
            line_addr(line, addr, index) as usize,
        ),
        range_ops(Maintenance::Invalidate, line, addr, size)[index] == DcacheOp::Invalidate(
            line_addr(line, addr, index) as usize,
        ),
{
}

/// A walk over a range that is not empty has one instruction for each line of the range, and the
/// barrier; one over an empty range has none.
pub proof fn law_walk_has_no_other_instructions(
    maintenance: Maintenance,
    line: nat,
    addr: nat,
    size: nat,
)
    ensures
        size > 0 ==> range_ops(maintenance, line, addr, size).len() == line_count(line, addr, size)
            + 1,
        size == 0 ==> range_ops(maintenance, line, addr, size).len() == 0,
{
}

/// Whether the addresses are those of the lines that hold a byte of the range: each is where a line
/// begins, the first line holds the first byte, the last line holds the last byte, and each of the
/// others follows the one before it.
pub open spec fn are_the_lines(addrs: Seq<usize>, line: nat, addr: nat, size: nat) -> bool {
    &&& addrs.len() > 0
    &&& addrs.first() <= addr < addrs.first() + line
    &&& addrs.last() < addr + size <= addrs.last() + line
    &&& forall|i: int| 0 <= i < addrs.len() ==> (#[trigger] addrs[i]) as int % line as int == 0
    &&& forall|i: int, j: int|
        0 <= i < addrs.len() && j == i + 1 && j < addrs.len() ==> #[trigger] addrs[j]
            == #[trigger] addrs[i] + line
    &&& forall|i: int|
        0 <= i < addrs.len() ==> (#[trigger] addrs[i]) < addr + size && addr < addrs[i] + line
    &&& forall|byte: nat|
        addr <= byte < addr + size ==> #[trigger] lies_in_a_line(addrs, line, byte)
}

/// Whether the byte lies in one of the lines.
pub open spec fn lies_in_a_line(addrs: Seq<usize>, line: nat, byte: nat) -> bool {
    exists|i: int| 0 <= i < addrs.len() && #[trigger] addrs[i] <= byte < addrs[i] + line
}

/// The addresses of the lines of a range, one after the other.
spec fn line_addrs(line: nat, addr: nat, size: nat) -> Seq<usize> {
    Seq::new(line_count(line, addr, size), |i: int| line_addr(line, addr, i) as usize)
}

/// The lines of a range are those that hold a byte of it.
proof fn lemma_lines_of_range(line: nat, addr: nat, size: nat)
    requires
        line > 0,
        size > 0,
        addr + size <= usize::MAX,
    ensures
        are_the_lines(line_addrs(line, addr, size), line, addr, size),
{
    let addrs = line_addrs(line, addr, size);
    let l = line as int;
    lemma_div_is_ordered(addr as int, addr + size - 1, l);
    assert forall|i: int| 0 <= i < addrs.len() implies {
        &&& (#[trigger] addrs[i]) as int == line_addr(line, addr, i)
        &&& addrs[i] as int % l == 0
        &&& addrs[i] < addr + size
        &&& addr < addrs[i] + line
    } by {
        law_no_other_line_is_touched(line, addr, size, i);
        law_lines_ascend(line, addr, i);
        assert(line_addr(line, addr, i) >= 0) by (nonlinear_arith)
            requires
                line_addr(line, addr, i) == (addr as int / l + i) * line,
                addr as int / l >= 0,
                i >= 0,
        ;
    }
    assert forall|i: int, j: int|
        0 <= i < addrs.len() && j == i + 1 && j < addrs.len() implies #[trigger] addrs[j]
        == #[trigger] addrs[i] + line by {
        law_lines_ascend(line, addr, i);
    }
    assert forall|byte: nat| addr <= byte < addr + size implies #[trigger] lies_in_a_line(
        addrs,
        line,
        byte,
    ) by {
        law_every_byte_is_covered_once(line, addr, size, byte);
        let i = choose|i: int|
            0 <= i < line_count(line, addr, size) && #[trigger] line_addr(line, addr, i) <= byte
                < line_addr(line, addr, i) + line;
        assert(addrs[i] <= byte < addrs[i] + line);
    }
    lemma_fundamental_div_mod(addr as int, l);
    assert(addrs[0] as int == line_addr(line, addr, 0));
    assert(line_addr(line, addr, 0) == l * (addr as int / l)) by (nonlinear_arith)
        requires
            line_addr(line, addr, 0) == (addr as int / l + 0) * line,
            l == line,
    ;
    let last = (addr + size - 1) / l;
    let n = line_count(line, addr, size) - 1;
    lemma_fundamental_div_mod(addr + size - 1, l);
    assert(addrs[n] as int == line_addr(line, addr, n));
    assert(line_addr(line, addr, n) == l * last) by (nonlinear_arith)
        requires
            line_addr(line, addr, n) == (addr as int / l + n) * line,
            n == last - addr as int / l,
            l == line,
    ;
}

/// Cleaning a range is to clean the lines that hold a byte of it, from the first to the last and no
/// others, and then to wait. An empty range needs nothing. `line` is the size of a line that the
/// cache type register gives.
pub proof fn law_clean_visits_the_lines_of_the_range(
    ctr: usize,
    line: usize,
    addr: usize,
    size: usize,
    walk: DcacheWalk,
) -> (addrs: Seq<usize>)
    requires
        call_ensures(get_dcache_line_size, (ctr,), line),
        call_ensures(clean_dcache_range, (ctr, addr, size), walk),
        addr + size <= usize::MAX,
    ensures
        size == 0 ==> walk@.len() == 0,
        size > 0 ==> {
            &&& are_the_lines(addrs, line as nat, addr as nat, size as nat)
            &&& walk@.len() == addrs.len() + 1
            &&& forall|i: int|
                0 <= i < addrs.len() ==> #[trigger] walk@[i] == DcacheOp::Clean(addrs[i])
            &&& walk@.last() is Barrier
        },
{
    if size > 0 {
        lemma_lines_of_range(line as nat, addr as nat, size as nat);
    }
    line_addrs(line as nat, addr as nat, size as nat)
}

/// Invalidating a range is to invalidate the lines that hold a byte of it, from the first to the
/// last and no others, and then to wait. An empty range needs nothing. `line` is the size of a line
/// that the cache type register gives.
pub proof fn law_invalidate_visits_the_lines_of_the_range(
    ctr: usize,
    line: usize,
    addr: usize,
    size: usize,
    walk: DcacheWalk,
) -> (addrs: Seq<usize>)
    requires
        call_ensures(get_dcache_line_size, (ctr,), line),
        call_ensures(invalidate_dcache_range, (ctr, addr, size), walk),
        addr + size <= usize::MAX,
    ensures
        size == 0 ==> walk@.len() == 0,
        size > 0 ==> {
            &&& are_the_lines(addrs, line as nat, addr as nat, size as nat)
            &&& walk@.len() == addrs.len() + 1
            &&& forall|i: int|
                0 <= i < addrs.len() ==> #[trigger] walk@[i] == DcacheOp::Invalidate(addrs[i])
            &&& walk@.last() is Barrier
        },
{
    if size > 0 {
        lemma_lines_of_range(line as nat, addr as nat, size as nat);
    }
    line_addrs(line as nat, addr as nat, size as nat)
}

/// A step of a walk is the first of the instructions that are left, and leaves the others in their
/// order; a walk without instructions is over and stays so.
pub proof fn law_walk_goes_on_one_by_one(walk: &mut DcacheWalk, r: Option<DcacheOp>)
    requires
        call_ensures(DcacheWalk::next, (walk,), r),
    ensures
        old(walk)@.len() == 0 ==> r is None && final(walk)@.len() == 0,
        old(walk)@.len() > 0 ==> {
            &&& r is Some
            &&& r->0 == old(walk)@[0]
            &&& final(walk)@.len() == old(walk)@.len() - 1
            &&& forall|i: int|
                0 <= i < final(walk)@.len() ==> #[trigger] final(walk)@[i] == old(walk)@[i + 1]
        },
{
}

/// The size of a line is four bytes where bits 16 to 19 of the cache type register are zero, and
/// doubles with each step of the number that they spell. The other bits do not matter.
pub proof fn law_line_size_doubles(ctr: usize, other: usize, r: usize, s: usize)
    requires
        call_ensures(get_dcache_line_size, (ctr,), r),
        call_ensures(get_dcache_line_size, (other,), s),
    ensures
        (ctr / 0x1_0000) % 16 == 0 ==> r == 4,
        (other / 0x1_0000) % 16 == (ctr / 0x1_0000) % 16 ==> s == r,
        (other / 0x1_0000) % 16 == (ctr / 0x1_0000) % 16 + 1 ==> s == 2 * r,
{
    let field = ((ctr / 0x1_0000) % 16) as nat;
    lemma2_to64();
    lemma_pow2_adds(1, field);
}

/// Every range that, rounded up to a line, ends in the address space can be cleaned and invalidated,
/// and so can every empty one.
pub proof fn law_every_range_is_taken(ctr: usize, line: usize, addr: usize, size: usize)
    requires
        call_ensures(get_dcache_line_size, (ctr,), line),
    ensures
        call_requires(get_dcache_line_size, (ctr,)),
        size == 0 || addr + size + line <= usize::MAX ==> {
            &&& call_requires(clean_dcache_range, (ctr, addr, size))
            &&& call_requires(invalidate_dcache_range, (ctr, addr, size))
        },
{
}

} // verus!
