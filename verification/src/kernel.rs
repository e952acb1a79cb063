//! The triad kernel over fixed-point buffers.

use vstd::prelude::*;

verus! {

/// Stored units per one unit of real value: elements are fixed-point numbers
/// with three decimal places.
pub const FIXED_POINT_SCALE: u64 = 1000;

/// Bound on the operand buffers' stored values, chosen so that the triad
/// arithmetic cannot overflow a `u64`.
pub const OPERAND_BOUND: u64 = 1_000_000_000;

/// An operand element small enough for overflow-free triad arithmetic.
pub open spec fn elem_ok(x: u64) -> bool {
    x <= OPERAND_BOUND
}

/// Every element of an operand buffer is within [`OPERAND_BOUND`].
pub open spec fn operands_ok(s: Seq<u64>) -> bool {
    forall|i: int| 0 <= i < s.len() ==> elem_ok(#[trigger] s[i])
}

/// The triad of one element: `b + c * d`, in stored fixed-point units.
pub open spec fn triad_value(b: u64, c: u64, d: u64) -> int {
    b + (c * d) / (FIXED_POINT_SCALE as int)
}

/// `out` is what one triad pass leaves in the output buffer: every slot holds
/// the triad of the operands at its index.
pub open spec fn is_triad_result(out: Seq<u64>, b: Seq<u64>, c: Seq<u64>, d: Seq<u64>) -> bool {
    &&& out.len() == b.len()
    &&& forall|j: int| 0 <= j < out.len() ==> #[trigger] out[j] == triad_value(b[j], c[j], d[j])
}

/// The triad of one element, computed in `u64` arithmetic.
pub fn triad_elem(b: u64, c: u64, d: u64) -> (r: u64)
    requires
        elem_ok(b),
        elem_ok(c),
        elem_ok(d),
    ensures
        r == triad_value(b, c, d),
{
    proof {
        assert((c as int) * (d as int) <= (OPERAND_BOUND as int) * (OPERAND_BOUND as int))
            by (nonlinear_arith)
            requires
                c <= OPERAND_BOUND,
                d <= OPERAND_BOUND,
        ;
    }
    let prod: u64 = c * d;
    b + prod / FIXED_POINT_SCALE
}

/// The triad of the operands at index `j` of the three operand buffers.
pub fn triad_at(b: &Vec<u64>, c: &Vec<u64>, d: &Vec<u64>, j: usize) -> (r: u64)
    requires
        j < b.len(),
        b.len() == c.len(),
        c.len() == d.len(),
        operands_ok(b@),
        operands_ok(c@),
        operands_ok(d@),
    ensures
        r == triad_value(b@[j as int], c@[j as int], d@[j as int]),
{
    triad_elem(b[j], c[j], d[j])
}

/// One serial pass of the kernel: writes the triad into every slot of `a`
/// without reading `a`'s prior contents.
fn triad_pass(a: &mut Vec<u64>, b: &Vec<u64>, c: &Vec<u64>, d: &Vec<u64>)
    requires
        old(a).len() == b.len(),
        b.len() == c.len(),
        c.len() == d.len(),
        operands_ok(b@),
        operands_ok(c@),
        operands_ok(d@),
    ensures
        is_triad_result(final(a)@, b@, c@, d@),
{
    let n = a.len();
    for j in 0..n
        invariant
            a.len() == n,
            b.len() == n,
            c.len() == n,
            d.len() == n,
            operands_ok(b@),
            operands_ok(c@),
            operands_ok(d@),
            forall|k: int| 0 <= k < j ==> #[trigger] a@[k] == triad_value(b@[k], c@[k], d@[k]),
    {
        let v = triad_at(b, c, d, j);
        a.set(j, v);
    }
}

/// The serial strategy: `iters` repetitions of the full kernel over the whole
/// index range, one element at a time.
pub fn triad_serial_iter(
    a: &mut Vec<u64>,
    b: &Vec<u64>,
    c: &Vec<u64>,
    d: &Vec<u64>,
    vsize: usize,
    iters: usize,
)
    requires
        old(a).len() == vsize,
        b.len() == vsize,
        c.len() == vsize,
        d.len() == vsize,
        operands_ok(b@),
        operands_ok(c@),
        operands_ok(d@),
    ensures
        final(a).len() == vsize,
        iters == 0 ==> final(a)@ == old(a)@,
        iters >= 1 ==> is_triad_result(final(a)@, b@, c@, d@),
{
    for i in 0..iters
        invariant
            a.len() == vsize,
            b.len() == vsize,
            c.len() == vsize,
            d.len() == vsize,
            operands_ok(b@),
            operands_ok(c@),
            operands_ok(d@),
            i == 0 ==> a@ == old(a)@,
            i >= 1 ==> is_triad_result(a@, b@, c@, d@),
    {
        triad_pass(a, b, c, d);
    }
}

/// The serial strategy written as an explicit nested index loop; it leaves
/// the same result as [`triad_serial_iter`].
pub fn triad_serial(
    a: &mut Vec<u64>,
    b: &Vec<u64>,
    c: &Vec<u64>,
    d: &Vec<u64>,
    vsize: usize,
    iters: usize,
)
    requires
        old(a).len() == vsize,
        b.len() == vsize,
        c.len() == vsize,
        d.len() == vsize,
        operands_ok(b@),
        operands_ok(c@),
        operands_ok(d@),
    ensures
        final(a).len() == vsize,
        iters == 0 ==> final(a)@ == old(a)@,
        iters >= 1 ==> is_triad_result(final(a)@, b@, c@, d@),
{
    for i in 0..iters
        invariant
            a.len() == vsize,
            b.len() == vsize,
            c.len() == vsize,
            d.len() == vsize,
            operands_ok(b@),
            operands_ok(c@),
            operands_ok(d@),
            i == 0 ==> a@ == old(a)@,
            i >= 1 ==> is_triad_result(a@, b@, c@, d@),
    {
        for j in 0..vsize
            invariant
                a.len() == vsize,
                b.len() == vsize,
                c.len() == vsize,
                d.len() == vsize,
                operands_ok(b@),
                operands_ok(c@),
                operands_ok(d@),
                forall|k: int| 0 <= k < j ==> #[trigger] a@[k] == triad_value(b@[k], c@[k], d@[k]),
        {
            let v = triad_elem(b[j], c[j], d[j]);
            a.set(j, v);
        }
    }
}

/// A vector of `n` copies of `value`.
pub fn filled_vec(n: usize, value: u64) -> (v: Vec<u64>)
    ensures
        v.len() == n,
        forall|i: int| 0 <= i < n ==> #[trigger] v@[i] == value,
{
    let mut v: Vec<u64> = Vec::new();
    for i in 0..n
        invariant
            v.len() == i,
            forall|k: int| 0 <= k < i ==> #[trigger] v@[k] == value,
    {
        v.push(value);
    }
    v
}

/// Any two buffers left by one triad pass over the same operands are equal,
/// whatever strategy produced each: the kernel's result is strategy-invariant.
pub proof fn lemma_strategy_equivalence(
    s1: Seq<u64>,
    s2: Seq<u64>,
    b: Seq<u64>,
    c: Seq<u64>,
    d: Seq<u64>,
)
    requires
        is_triad_result(s1, b, c, d),
        is_triad_result(s2, b, c, d),
    ensures
        s1 == s2,
{
    assert(s1 =~= s2);
}

} // verus!
