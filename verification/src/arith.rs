//! Modular arithmetic of the machine: all arithmetic results are reduced
//! modulo 32768, and bitwise complement is masked to the low 15 bits, so
//! that a value at rest always has its top bit clear.

use vstd::prelude::*;

verus! {

/// Number of memory cells, and the modulus of `add` and `mult`.
pub const MEM_SIZE: u16 = 32768;

/// Sum of two cell values, reduced modulo 32768.
pub open spec fn add_val(a: u16, b: u16) -> u16 {
    ((a + b) % (MEM_SIZE as int)) as u16
}

/// Product of two cell values, reduced modulo 32768.
pub open spec fn mul_val(a: u16, b: u16) -> u16 {
    ((a * b) % (MEM_SIZE as int)) as u16
}

/// Bitwise complement of a cell value, masked to the low 15 bits.
pub open spec fn not_val(a: u16) -> u16 {
    !a & 0x7fff
}

/// Executable counterpart of `add_val`; the intermediate sum is widened so
/// that it cannot overflow before the reduction.
pub fn add_cells(a: u16, b: u16) -> (r: u16)
    ensures
        r == add_val(a, b),
{
    (((a as u32) + (b as u32)) % (MEM_SIZE as u32)) as u16
}

/// Executable counterpart of `mul_val`; the intermediate product is widened
/// so that it cannot overflow before the reduction.
pub fn mul_cells(a: u16, b: u16) -> (r: u16)
    ensures
        r == mul_val(a, b),
{
    proof {
        assert((a as u32) * (b as u32) <= 0xffff * 0xffff) by (nonlinear_arith)
            requires
                a <= 0xffff,
                b <= 0xffff,
        ;
    }
    (((a as u32) * (b as u32)) % (MEM_SIZE as u32)) as u16
}

/// Executable counterpart of `not_val`.
pub fn not_cell(a: u16) -> (r: u16)
    ensures
        r == not_val(a),
{
    !a & 0x7fff
}

/// The results of `add` and `mult` always lie in 0..=32767: reduction
/// modulo 32768 closes the arithmetic over 15-bit values.
pub proof fn lemma_arith_closure(a: u16, b: u16)
    ensures
        add_val(a, b) < 32768,
        mul_val(a, b) < 32768,
{
    assert(0 <= (a + b) % (MEM_SIZE as int) < 32768);
    assert(0 <= (a * b) % (MEM_SIZE as int) < 32768) by (nonlinear_arith);
}

/// The result of `not` always has bit 15 clear and lies in 0..=32767, so
/// no complement ever leaves the conceptual 15-bit range.
pub proof fn lemma_not_masked(a: u16)
    ensures
        not_val(a) < 32768,
        not_val(a) & 0x8000 == 0,
{
    assert((!a & 0x7fff) < 32768 && (!a & 0x7fff) & 0x8000 == 0) by (bit_vector);
}

} // verus!
