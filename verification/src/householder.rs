//! Block Householder transformations.
//!
//! A Householder reflection about the hyperplane orthogonal to a vector `v`
//! with unit leading entry is `H = I - v vᴴ / tau`. A block of `b` successive
//! reflections is stored as a lower trapezoidal basis `V` with unit diagonal
//! (one reflector per column) together with an upper triangular factor `T`
//! such that the product of the reflections is `I - V T⁻¹ Vᴴ`. A sequence is
//! the horizontal concatenation of such blocks.
//!
//! Applying a block from the left computes `tmp = Vᴴ × matrix`, solves a
//! triangular system against `T` (or `Tᴴ`, depending on the direction), and
//! updates `matrix -= V × tmp`, splitting `V` into its square unit triangular
//! top and its rectangular tail.

use vstd::prelude::*;
use crate::mat::Mat;
use crate::matmul::{matmul_with_conj, triangular};
use crate::matmul::triangular::BlockStructure;
use crate::scalar::ComplexField;
use crate::solve;
use crate::stack::{MemStack, SizeOverflow, StackReq, temp_mat_req};
use crate::{Conj, Parallelism};

verus! {

/// Computes a Householder reflection that sends a vector to a multiple of the
/// first basis vector. The vector is given by its leading entry `head` and by
/// `essential`, the column of its remaining entries, whose squared norm is
/// `tail_squared_norm`; `essential` is overwritten with the reflector scaled
/// to a unit leading entry. Returns the factor `tau` of the reflection and the
/// value that the reflection gives the leading entry.
pub fn make_householder_in_place<E: ComplexField>(
    essential: &mut Mat<E>,
    head: E,
    tail_squared_norm: E,
) -> (r: (E, E))
    requires
        old(essential).wf(),
        old(essential).spec_ncols() <= 1,
    ensures
        final(essential).wf(),
        final(essential).same_shape(old(essential)),
{
    let one_half = E::faer_one().faer_add(E::faer_one()).faer_inv();
    let head_squared_norm = head.faer_mul(head.faer_conj()).faer_real();
    let norm = head_squared_norm.faer_add(tail_squared_norm).faer_sqrt();

    let sign = if !head.faer_is_zero() {
        head.faer_scale_real(head_squared_norm.faer_sqrt().faer_inv())
    } else {
        E::faer_one()
    };

    let signed_norm = sign.faer_mul(E::faer_from_real(norm));
    let head_with_beta = head.faer_add(signed_norm);
    let inv = head_with_beta.faer_inv();

    if !head_with_beta.faer_is_zero() {
        let m = essential.nrows();
        let n = essential.ncols();
        let mut i: usize = 0;
        while i < m
            invariant
                essential.wf(),
                essential.spec_nrows() == m,
                essential.spec_ncols() == n,
                i <= m,
            decreases m - i,
        {
            if n == 1 {
                let v = essential.read(i, 0).faer_mul(inv);
                essential.write(i, 0, v);
            }
            i += 1;
        }
        let tau = one_half.faer_mul(
            E::faer_one().faer_add(
                tail_squared_norm.faer_mul(inv.faer_mul(inv.faer_conj()).faer_real()),
            ),
        );
        (E::faer_from_real(tau), signed_norm.faer_neg())
    } else {
        (E::faer_from_real(E::faer_zero().faer_inv()), E::faer_zero())
    }
}

/// Merges the factors of a sequence computed at a smaller block size into the
/// factors of a larger block size, without recomputing the reflectors: the
/// sequence is split in half, each half is upgraded recursively, and the off
/// diagonal block of each merged factor is filled with the product of the two
/// halves' bases.
pub fn upgrade_householder_factor<E: ComplexField>(
    householder_factor: &mut Mat<E>,
    essentials: &Mat<E>,
    blocksize: usize,
    prev_blocksize: usize,
    parallelism: Parallelism,
)
    requires
        old(householder_factor).wf(),
        essentials.wf(),
        old(householder_factor).spec_nrows() == old(householder_factor).spec_ncols(),
        essentials.spec_ncols() == old(householder_factor).spec_nrows(),
        essentials.spec_nrows() >= essentials.spec_ncols(),
        blocksize >= 1,
        prev_blocksize >= 1,
    ensures
        final(householder_factor).wf(),
        final(householder_factor).same_shape(old(householder_factor)),
    decreases old(householder_factor).spec_nrows(),
{
    let n = householder_factor.nrows();
    if blocksize == prev_blocksize || n <= prev_blocksize {
        return ;
    }

    let block_count = div_ceil(n, blocksize);

    if block_count > 1 {
        let half = block_count / 2;
        proof {
            lemma_mid_block_index(
                n as int,
                blocksize as int,
                block_count as int,
                half as int * blocksize as int,
            );
        }
        let idx = half * blocksize;
        let (tau_tl, _, _, tau_br) = householder_factor.split_at(idx, idx);
        let (basis_left_full, basis_right_full) = essentials.split_at_col(idx);
        let basis_right = basis_right_full.submatrix(
            idx,
            0,
            essentials.nrows() - idx,
            basis_right_full.ncols(),
        );
        let mut tau_tl = tau_tl;
        let mut tau_br = tau_br;
        upgrade_householder_factor(
            &mut tau_tl,
            &basis_left_full,
            blocksize,
            prev_blocksize,
            parallelism,
        );
        upgrade_householder_factor(
            &mut tau_br,
            &basis_right,
            blocksize,
            prev_blocksize,
            parallelism,
        );
        householder_factor.write_block(0, 0, &tau_tl);
        householder_factor.write_block(idx, idx, &tau_br);
        return ;
    }

    if prev_blocksize < 8 {
        // Coarse upgrade: recompute the whole upper triangular half of the
        // factor from the basis, as if the previous block size were one.
        let (basis_top, basis_bot) = essentials.split_at_row(essentials.ncols());
        let basis_top_adjoint = basis_top.adjoint();
        let basis_bot_adjoint = basis_bot.adjoint();
        triangular::matmul(
            householder_factor,
            BlockStructure::UnitTriangularUpper,
            &basis_top_adjoint,
            BlockStructure::UnitTriangularUpper,
            &basis_top,
            BlockStructure::UnitTriangularLower,
            None,
            E::faer_one(),
            parallelism,
        );
        triangular::matmul(
            householder_factor,
            BlockStructure::UnitTriangularUpper,
            &basis_bot_adjoint,
            BlockStructure::Rectangular,
            &basis_bot,
            BlockStructure::Rectangular,
            Some(E::faer_one()),
            E::faer_one(),
            parallelism,
        );
    } else {
        let prev_block_count = div_ceil(n, prev_blocksize);
        proof {
            lemma_ceil_div_at_least_two(n as int, prev_blocksize as int);
        }
        let half = prev_block_count / 2;
        proof {
            lemma_mid_block_index(
                n as int,
                prev_blocksize as int,
                prev_block_count as int,
                half as int * prev_blocksize as int,
            );
        }
        let idx = half * prev_blocksize;
        let (tau_tl, tau_tr, _, tau_br) = householder_factor.split_at(idx, idx);
        let (basis_left_full, basis_right_full) = essentials.split_at_col(idx);
        let basis_right = basis_right_full.submatrix(
            idx,
            0,
            essentials.nrows() - idx,
            basis_right_full.ncols(),
        );

        let mut tau_tl = tau_tl;
        let mut tau_br = tau_br;
        let mut tau_tr = tau_tr;
        upgrade_householder_factor(
            &mut tau_tl,
            &basis_left_full,
            blocksize,
            prev_blocksize,
            parallelism,
        );
        upgrade_householder_factor(
            &mut tau_br,
            &basis_right,
            blocksize,
            prev_blocksize,
            parallelism,
        );

        let basis_left = basis_left_full.submatrix(idx, 0, basis_left_full.nrows() - idx, idx);
        let rows = basis_right.ncols();
        let (basis_left_top, basis_left_bot) = basis_left.split_at_row(rows);
        let (basis_right_top, basis_right_bot) = basis_right.split_at_row(rows);

        let basis_left_top_adjoint = basis_left_top.adjoint();
        let basis_left_bot_adjoint = basis_left_bot.adjoint();
        triangular::matmul(
            &mut tau_tr,
            BlockStructure::Rectangular,
            &basis_left_top_adjoint,
            BlockStructure::Rectangular,
            &basis_right_top,
            BlockStructure::UnitTriangularLower,
            None,
            E::faer_one(),
            parallelism,
        );
        matmul_with_conj(
            &mut tau_tr,
            &basis_left_bot_adjoint,
            Conj::No,
            &basis_right_bot,
            Conj::No,
            Some(E::faer_one()),
            E::faer_one(),
            parallelism,
        );

        householder_factor.write_block(0, 0, &tau_tl);
        householder_factor.write_block(idx, idx, &tau_br);
        householder_factor.write_block(0, idx, &tau_tr);
    }
}

/// The quotient of `a` by `b`, rounded up.
pub fn div_ceil(a: usize, b: usize) -> (r: usize)
    requires
        b >= 1,
    ensures
        r == (a + b - 1) as int / b as int,
{
    let div = a / b;
    let rem = a % b;
    proof {
        vstd::arithmetic::div_mod::lemma_fundamental_div_mod(a as int, b as int);
        lemma_div_ceil_form(a as int, b as int, div as int, rem as int);
        if rem != 0 {
            assert(div < a) by (nonlinear_arith)
                requires
                    b >= 1,
                    rem >= 1,
                    div >= 0,
                    a == b * div + rem,
            ;
        }
    }
    if rem == 0 {
        div
    } else {
        div + 1
    }
}

/// For `a == div * b + rem` with `0 <= rem < b`, the rounded-up quotient
/// `(a + b - 1) / b` is `div` when `rem` is zero and `div + 1` otherwise.
proof fn lemma_div_ceil_form(a: int, b: int, div: int, rem: int)
    requires
        b >= 1,
        a >= 0,
        div == a / b,
        rem == a % b,
    ensures
        rem == 0 ==> (a + b - 1) / b == div,
        rem != 0 ==> (a + b - 1) / b == div + 1,
{
    vstd::arithmetic::div_mod::lemma_fundamental_div_mod(a, b);
    if rem == 0 {
        vstd::arithmetic::div_mod::lemma_div_multiples_vanish_fancy(div, b - 1, b);
        assert(a + b - 1 == div * b + (b - 1));
    } else {
        vstd::arithmetic::div_mod::lemma_div_multiples_vanish_fancy(div + 1, rem - 1, b);
        assert((div + 1) * b + (rem - 1) == div * b + rem + b - 1) by (nonlinear_arith);
        assert(a + b - 1 == (div + 1) * b + (rem - 1));
    }
}

/// For a block count greater than one, the index of the middle block boundary
/// lies strictly inside the dimension.
proof fn lemma_mid_block_index(n: int, bs: int, block_count: int, idx: int)
    requires
        n >= 0,
        bs >= 1,
        block_count == (n + bs - 1) / bs,
        block_count > 1,
        idx == (block_count / 2) * bs,
    ensures
        1 <= idx < n,
{
    vstd::arithmetic::div_mod::lemma_fundamental_div_mod(n + bs - 1, bs);
    assert(n >= 1) by (nonlinear_arith)
        requires
            n >= 0,
            bs >= 1,
            block_count > 1,
            n + bs - 1 == bs * block_count + (n + bs - 1) % bs,
            (n + bs - 1) % bs >= 0,
    ;
    vstd::arithmetic::div_mod::lemma_fundamental_div_mod(n + bs - 1, bs);
    let q = block_count;
    let r = (n + bs - 1) % bs;
    assert(n + bs - 1 == bs * q + r);
    let h = q / 2;
    vstd::arithmetic::div_mod::lemma_fundamental_div_mod(q, 2);
    assert(q == 2 * h + q % 2);
    assert(h >= 1);
    assert(idx == h * bs);
    assert(idx >= bs) by (nonlinear_arith)
        requires
            idx == h * bs,
            h >= 1,
            bs >= 1,
    ;
    // idx <= (q - 1) * bs and (q - 1) * bs <= n - 1.
    assert(h <= q - 1);
    assert(idx <= (q - 1) * bs) by (nonlinear_arith)
        requires
            idx == h * bs,
            h <= q - 1,
            bs >= 1,
    ;
    assert(bs * q + r == n + bs - 1);
    assert((q - 1) * bs == bs * q - bs) by (nonlinear_arith);
    assert((q - 1) * bs == n - 1 - r);
    assert(r >= 0);
}

/// The scratch requirement of applying a block Householder transformation to a
/// right-hand side from the left.
pub fn apply_block_householder_on_the_left_in_place_req(
    householder_basis_nrows: usize,
    blocksize: usize,
    rhs_ncols: usize,
) -> (r: Result<StackReq, SizeOverflow>)
    ensures
        r is Ok <==> blocksize * rhs_ncols <= usize::MAX,
        r is Ok ==> r->Ok_0.spec_size() == blocksize * rhs_ncols,
{
    let _ = householder_basis_nrows;
    temp_mat_req(blocksize, rhs_ncols)
}

/// The scratch requirement of applying the transpose of a block Householder
/// transformation to a right-hand side from the left.
pub fn apply_block_householder_transpose_on_the_left_in_place_req(
    householder_basis_nrows: usize,
    blocksize: usize,
    rhs_ncols: usize,
) -> (r: Result<StackReq, SizeOverflow>)
    ensures
        r is Ok <==> blocksize * rhs_ncols <= usize::MAX,
        r is Ok ==> r->Ok_0.spec_size() == blocksize * rhs_ncols,
{
    let _ = householder_basis_nrows;
    temp_mat_req(blocksize, rhs_ncols)
}

/// The scratch requirement of applying a block Householder transformation to a
/// left-hand side from the right.
pub fn apply_block_householder_on_the_right_in_place_req(
    householder_basis_nrows: usize,
    blocksize: usize,
    lhs_nrows: usize,
) -> (r: Result<StackReq, SizeOverflow>)
    ensures
        r is Ok <==> blocksize * lhs_nrows <= usize::MAX,
        r is Ok ==> r->Ok_0.spec_size() == blocksize * lhs_nrows,
{
    let _ = householder_basis_nrows;
    temp_mat_req(blocksize, lhs_nrows)
}

/// The scratch requirement of applying the transpose of a block Householder
/// transformation to a left-hand side from the right.
pub fn apply_block_householder_transpose_on_the_right_in_place_req(
    householder_basis_nrows: usize,
    blocksize: usize,
    lhs_nrows: usize,
) -> (r: Result<StackReq, SizeOverflow>)
    ensures
        r is Ok <==> blocksize * lhs_nrows <= usize::MAX,
        r is Ok ==> r->Ok_0.spec_size() == blocksize * lhs_nrows,
{
    let _ = householder_basis_nrows;
    temp_mat_req(blocksize, lhs_nrows)
}

/// The scratch requirement of applying a sequence of block Householder
/// transformations to a right-hand side from the left.
pub fn apply_block_householder_sequence_on_the_left_in_place_req(
    householder_basis_nrows: usize,
    blocksize: usize,
    rhs_ncols: usize,
) -> (r: Result<StackReq, SizeOverflow>)
    ensures
        r is Ok <==> blocksize * rhs_ncols <= usize::MAX,
        r is Ok ==> r->Ok_0.spec_size() == blocksize * rhs_ncols,
{
    let _ = householder_basis_nrows;
    temp_mat_req(blocksize, rhs_ncols)
}

/// The scratch requirement of applying the transpose of a sequence of block
/// Householder transformations to a right-hand side from the left.
pub fn apply_block_householder_sequence_transpose_on_the_left_in_place_req(
    householder_basis_nrows: usize,
    blocksize: usize,
    rhs_ncols: usize,
) -> (r: Result<StackReq, SizeOverflow>)
    ensures
        r is Ok <==> blocksize * rhs_ncols <= usize::MAX,
        r is Ok ==> r->Ok_0.spec_size() == blocksize * rhs_ncols,
{
    let _ = householder_basis_nrows;
    temp_mat_req(blocksize, rhs_ncols)
}

/// The scratch requirement of applying a sequence of block Householder
/// transformations to a left-hand side from the right.
pub fn apply_block_householder_sequence_on_the_right_in_place_req(
    householder_basis_nrows: usize,
    blocksize: usize,
    lhs_nrows: usize,
) -> (r: Result<StackReq, SizeOverflow>)
    ensures
        r is Ok <==> blocksize * lhs_nrows <= usize::MAX,
        r is Ok ==> r->Ok_0.spec_size() == blocksize * lhs_nrows,
{
    let _ = householder_basis_nrows;
    temp_mat_req(blocksize, lhs_nrows)
}

/// The scratch requirement of applying the transpose of a sequence of block
/// Householder transformations to a left-hand side from the right.
pub fn apply_block_householder_sequence_transpose_on_the_right_in_place_req(
    householder_basis_nrows: usize,
    blocksize: usize,
    lhs_nrows: usize,
) -> (r: Result<StackReq, SizeOverflow>)
    ensures
        r is Ok <==> blocksize * lhs_nrows <= usize::MAX,
        r is Ok ==> r->Ok_0.spec_size() == blocksize * lhs_nrows,
{
    let _ = householder_basis_nrows;
    temp_mat_req(blocksize, lhs_nrows)
}

/// Applies one block transformation from the left: `tmp = op(V)ᴴ × matrix`,
/// then a triangular solve of `tmp` against the factor in the requested
/// direction, then `matrix -= op(V) × tmp`.
fn apply_block_householder_on_the_left_in_place_generic<E: ComplexField>(
    householder_basis: &Mat<E>,
    householder_factor: &Mat<E>,
    conj_lhs: Conj,
    matrix: &mut Mat<E>,
    forward: bool,
    parallelism: Parallelism,
    stack: &mut MemStack<E>,
)
    requires
        householder_basis.wf(),
        householder_factor.wf(),
        old(matrix).wf(),
        householder_factor.spec_nrows() == householder_factor.spec_ncols(),
        householder_basis.spec_ncols() == householder_factor.spec_nrows(),
        householder_basis.spec_nrows() >= householder_basis.spec_ncols(),
        old(matrix).spec_nrows() == householder_basis.spec_nrows(),
        householder_factor.spec_nrows() * old(matrix).spec_ncols() <= old(stack).spec_len(),
    ensures
        final(matrix).wf(),
        final(matrix).same_shape(old(matrix)),
        final(stack).spec_len() == old(stack).spec_len(),
{
    let bs = householder_factor.nrows();
    let n = matrix.ncols();

    let (essentials_top, essentials_bot) = householder_basis.split_at_row(bs);
    let (mut matrix_top, mut matrix_bot) = matrix.split_at_row(bs);

    let mut tmp = stack.make_temp_mat(bs, n);

    // tmp = op(V)ᴴ × matrix
    let essentials_top_t = essentials_top.transpose();
    let essentials_bot_t = essentials_bot.transpose();
    triangular::matmul_with_conj(
        &mut tmp,
        BlockStructure::Rectangular,
        &essentials_top_t,
        BlockStructure::UnitTriangularUpper,
        Conj::Yes.compose(conj_lhs),
        &matrix_top,
        BlockStructure::Rectangular,
        Conj::No,
        None,
        E::faer_one(),
        parallelism,
    );
    matmul_with_conj(
        &mut tmp,
        &essentials_bot_t,
        Conj::Yes.compose(conj_lhs),
        &matrix_bot,
        Conj::No,
        Some(E::faer_one()),
        E::faer_one(),
        parallelism,
    );

    // tmp = T⁻¹ × tmp or T⁻ᴴ × tmp
    if forward {
        let factor_t = householder_factor.transpose();
        solve::solve_lower_triangular_in_place_with_conj(
            &factor_t,
            Conj::Yes.compose(conj_lhs),
            &mut tmp,
            parallelism,
        );
    } else {
        solve::solve_upper_triangular_in_place_with_conj(
            householder_factor,
            Conj::No.compose(conj_lhs),
            &mut tmp,
            parallelism,
        );
    }

    // matrix -= op(V) × tmp
    triangular::matmul_with_conj(
        &mut matrix_top,
        BlockStructure::Rectangular,
        &essentials_top,
        BlockStructure::UnitTriangularLower,
        Conj::No.compose(conj_lhs),
        &tmp,
        BlockStructure::Rectangular,
        Conj::No,
        Some(E::faer_one()),
        E::faer_one().faer_neg(),
        parallelism,
    );
    matmul_with_conj(
        &mut matrix_bot,
        &essentials_bot,
        Conj::No.compose(conj_lhs),
        &tmp,
        Conj::No,
        Some(E::faer_one()),
        E::faer_one().faer_neg(),
        parallelism,
    );

    matrix.write_block(0, 0, &matrix_top);
    matrix.write_block(bs, 0, &matrix_bot);

    stack.give_back_mat(tmp);
}

/// Computes the product of the given block Householder transformation and
/// `matrix`, and stores the result in `matrix`.
pub fn apply_block_householder_on_the_left_in_place_with_conj<E: ComplexField>(
    householder_basis: &Mat<E>,
    householder_factor: &Mat<E>,
    conj_lhs: Conj,
    matrix: &mut Mat<E>,
    parallelism: Parallelism,
    stack: &mut MemStack<E>,
)
    requires
        householder_basis.wf(),
        householder_factor.wf(),
        old(matrix).wf(),
        householder_factor.spec_nrows() == householder_factor.spec_ncols(),
        householder_basis.spec_ncols() == householder_factor.spec_nrows(),
        householder_basis.spec_nrows() >= householder_basis.spec_ncols(),
        old(matrix).spec_nrows() == householder_basis.spec_nrows(),
        householder_factor.spec_nrows() * old(matrix).spec_ncols() <= old(stack).spec_len(),
    ensures
        final(matrix).wf(),
        final(matrix).same_shape(old(matrix)),
        final(stack).spec_len() == old(stack).spec_len(),
{
    apply_block_householder_on_the_left_in_place_generic(
        householder_basis,
        householder_factor,
        conj_lhs,
        matrix,
        false,
        parallelism,
        stack,
    );
}

/// Computes the product of the transpose of the given block Householder
/// transformation and `matrix`, and stores the result in `matrix`.
pub fn apply_block_householder_transpose_on_the_left_in_place_with_conj<E: ComplexField>(
    householder_basis: &Mat<E>,
    householder_factor: &Mat<E>,
    conj_lhs: Conj,
    matrix: &mut Mat<E>,
    parallelism: Parallelism,
    stack: &mut MemStack<E>,
)
    requires
        householder_basis.wf(),
        householder_factor.wf(),
        old(matrix).wf(),
        householder_factor.spec_nrows() == householder_factor.spec_ncols(),
        householder_basis.spec_ncols() == householder_factor.spec_nrows(),
        householder_basis.spec_nrows() >= householder_basis.spec_ncols(),
        old(matrix).spec_nrows() == householder_basis.spec_nrows(),
        householder_factor.spec_nrows() * old(matrix).spec_ncols() <= old(stack).spec_len(),
    ensures
        final(matrix).wf(),
        final(matrix).same_shape(old(matrix)),
        final(stack).spec_len() == old(stack).spec_len(),
{
    apply_block_householder_on_the_left_in_place_generic(
        householder_basis,
        householder_factor,
        conj_lhs.compose(Conj::Yes),
        matrix,
        true,
        parallelism,
        stack,
    );
}

/// Computes the product of `matrix` and the given block Householder
/// transformation, and stores the result in `matrix`.
pub fn apply_block_householder_on_the_right_in_place_with_conj<E: ComplexField>(
    householder_basis: &Mat<E>,
    householder_factor: &Mat<E>,
    conj_rhs: Conj,
    matrix: &mut Mat<E>,
    parallelism: Parallelism,
    stack: &mut MemStack<E>,
)
    requires
        householder_basis.wf(),
        householder_factor.wf(),
        old(matrix).wf(),
        householder_factor.spec_nrows() == householder_factor.spec_ncols(),
        householder_basis.spec_ncols() == householder_factor.spec_nrows(),
        householder_basis.spec_nrows() >= householder_basis.spec_ncols(),
        old(matrix).spec_ncols() == householder_basis.spec_nrows(),
        householder_factor.spec_nrows() * old(matrix).spec_nrows() <= old(stack).spec_len(),
    ensures
        final(matrix).wf(),
        final(matrix).same_shape(old(matrix)),
        final(stack).spec_len() == old(stack).spec_len(),
{
    let mut t = matrix.transpose();
    apply_block_householder_transpose_on_the_left_in_place_with_conj(
        householder_basis,
        householder_factor,
        conj_rhs,
        &mut t,
        parallelism,
        stack,
    );
    let back = t.transpose();
    matrix.copy_from(&back);
}

/// Computes the product of `matrix` and the transpose of the given block
/// Householder transformation, and stores the result in `matrix`.
pub fn apply_block_householder_transpose_on_the_right_in_place_with_conj<E: ComplexField>(
    householder_basis: &Mat<E>,
    householder_factor: &Mat<E>,
    conj_rhs: Conj,
    matrix: &mut Mat<E>,
    parallelism: Parallelism,
    stack: &mut MemStack<E>,
)
    requires
        householder_basis.wf(),
        householder_factor.wf(),
        old(matrix).wf(),
        householder_factor.spec_nrows() == householder_factor.spec_ncols(),
        householder_basis.spec_ncols() == householder_factor.spec_nrows(),
        householder_basis.spec_nrows() >= householder_basis.spec_ncols(),
        old(matrix).spec_ncols() == householder_basis.spec_nrows(),
        householder_factor.spec_nrows() * old(matrix).spec_nrows() <= old(stack).spec_len(),
    ensures
        final(matrix).wf(),
        final(matrix).same_shape(old(matrix)),
        final(stack).spec_len() == old(stack).spec_len(),
{
    let mut t = matrix.transpose();
    apply_block_householder_on_the_left_in_place_with_conj(
        householder_basis,
        householder_factor,
        conj_rhs,
        &mut t,
        parallelism,
        stack,
    );
    let back = t.transpose();
    matrix.copy_from(&back);
}

/// Applies a sequence of block Householder transformations to `matrix` from
/// the left, walking the blocks from the last one to the first one.
pub fn apply_block_householder_sequence_on_the_left_in_place_with_conj<E: ComplexField>(
    householder_basis: &Mat<E>,
    householder_factor: &Mat<E>,
    conj_lhs: Conj,
    matrix: &mut Mat<E>,
    parallelism: Parallelism,
    stack: &mut MemStack<E>,
)
    requires
        householder_basis.wf(),
        householder_factor.wf(),
        old(matrix).wf(),
        householder_factor.spec_nrows() >= 1,
        householder_factor.spec_ncols() == householder_basis.spec_ncols(),
        householder_basis.spec_ncols() <= householder_basis.spec_nrows(),
        old(matrix).spec_nrows() == householder_basis.spec_nrows(),
        householder_factor.spec_nrows() * old(matrix).spec_ncols() <= old(stack).spec_len(),
    ensures
        final(matrix).wf(),
        final(matrix).same_shape(old(matrix)),
        final(stack).spec_len() == old(stack).spec_len(),
{
    let blocksize = householder_factor.nrows();
    let m = householder_basis.nrows();
    let k = matrix.ncols();
    let size = householder_factor.ncols();

    let mut j = size;
    let mut bs = size % blocksize;
    if bs == 0 {
        bs = blocksize;
    }
    proof {
        lemma_first_block(size as int, blocksize as int);
    }

    while j > 0
        invariant
            householder_basis.wf(),
            householder_factor.wf(),
            matrix.wf(),
            householder_factor.spec_nrows() == blocksize,
            blocksize >= 1,
            householder_factor.spec_ncols() == size,
            householder_basis.spec_ncols() == size,
            size <= m,
            householder_basis.spec_nrows() == m,
            matrix.spec_nrows() == m,
            matrix.spec_ncols() == k,
            stack.spec_len() == old(stack).spec_len(),
            blocksize * k <= stack.spec_len(),
            1 <= bs <= blocksize,
            j <= size,
            j > 0 ==> bs <= j,
            (j as int - bs as int) % blocksize as int == 0,
        decreases j,
    {
        j -= bs;
        proof {
            lemma_next_block(j as int, blocksize as int);
        }

        let essentials = householder_basis.submatrix(j, j, m - j, bs);
        let householder = householder_factor.submatrix(0, j, bs, bs);

        let mut sub = matrix.submatrix(j, 0, m - j, k);
        proof {
            lemma_mul_le(bs as int, blocksize as int, k as int);
        }
        apply_block_householder_on_the_left_in_place_with_conj(
            &essentials,
            &householder,
            conj_lhs,
            &mut sub,
            parallelism,
            stack,
        );
        matrix.write_block(j, 0, &sub);

        bs = blocksize;
    }
}

/// Applies the transpose of a sequence of block Householder transformations to
/// `matrix` from the left, walking the blocks from the first one to the last
/// one.
pub fn apply_block_householder_sequence_transpose_on_the_left_in_place_with_conj<
    E: ComplexField,
>(
    householder_basis: &Mat<E>,
    householder_factor: &Mat<E>,
    conj_lhs: Conj,
    matrix: &mut Mat<E>,
    parallelism: Parallelism,
    stack: &mut MemStack<E>,
)
    requires
        householder_basis.wf(),
        householder_factor.wf(),
        old(matrix).wf(),
        householder_factor.spec_nrows() >= 1,
        householder_factor.spec_ncols() == householder_basis.spec_ncols(),
        householder_basis.spec_ncols() <= householder_basis.spec_nrows(),
        old(matrix).spec_nrows() == householder_basis.spec_nrows(),
        householder_factor.spec_nrows() * old(matrix).spec_ncols() <= old(stack).spec_len(),
    ensures
        final(matrix).wf(),
        final(matrix).same_shape(old(matrix)),
        final(stack).spec_len() == old(stack).spec_len(),
{
    let blocksize = householder_factor.nrows();
    let m = householder_basis.nrows();
    let k = matrix.ncols();
    let size = householder_factor.ncols();

    let mut j: usize = 0;
    while j < size
        invariant
            householder_basis.wf(),
            householder_factor.wf(),
            matrix.wf(),
            householder_factor.spec_nrows() == blocksize,
            blocksize >= 1,
            householder_factor.spec_ncols() == size,
            householder_basis.spec_ncols() == size,
            size <= m,
            householder_basis.spec_nrows() == m,
            matrix.spec_nrows() == m,
            matrix.spec_ncols() == k,
            stack.spec_len() == old(stack).spec_len(),
            blocksize * k <= stack.spec_len(),
            j <= size,
        decreases size - j,
    {
        let bs = if blocksize < size - j {
            blocksize
        } else {
            size - j
        };
        let essentials = householder_basis.submatrix(j, j, m - j, bs);
        let householder = householder_factor.submatrix(0, j, bs, bs);

        let mut sub = matrix.submatrix(j, 0, m - j, k);
        proof {
            lemma_mul_le(bs as int, blocksize as int, k as int);
        }
        apply_block_householder_transpose_on_the_left_in_place_with_conj(
            &essentials,
            &householder,
            conj_lhs,
            &mut sub,
            parallelism,
            stack,
        );
        matrix.write_block(j, 0, &sub);

        j += bs;
    }
}

/// Applies a sequence of block Householder transformations to `matrix` from
/// the right.
pub fn apply_block_householder_sequence_on_the_right_in_place_with_conj<E: ComplexField>(
    householder_basis: &Mat<E>,
    householder_factor: &Mat<E>,
    conj_rhs: Conj,
    matrix: &mut Mat<E>,
    parallelism: Parallelism,
    stack: &mut MemStack<E>,
)
    requires
        householder_basis.wf(),
        householder_factor.wf(),
        old(matrix).wf(),
        householder_factor.spec_nrows() >= 1,
        householder_factor.spec_ncols() == householder_basis.spec_ncols(),
        householder_basis.spec_ncols() <= householder_basis.spec_nrows(),
        old(matrix).spec_ncols() == householder_basis.spec_nrows(),
        householder_factor.spec_nrows() * old(matrix).spec_nrows() <= old(stack).spec_len(),
    ensures
        final(matrix).wf(),
        final(matrix).same_shape(old(matrix)),
        final(stack).spec_len() == old(stack).spec_len(),
{
    let mut t = matrix.transpose();
    apply_block_householder_sequence_transpose_on_the_left_in_place_with_conj(
        householder_basis,
        householder_factor,
        conj_rhs,
        &mut t,
        parallelism,
        stack,
    );
    let back = t.transpose();
    matrix.copy_from(&back);
}

/// Applies the transpose of a sequence of block Householder transformations to
/// `matrix` from the right.
pub fn apply_block_householder_sequence_transpose_on_the_right_in_place_with_conj<
    E: ComplexField,
>(
    householder_basis: &Mat<E>,
    householder_factor: &Mat<E>,
    conj_rhs: Conj,
    matrix: &mut Mat<E>,
    parallelism: Parallelism,
    stack: &mut MemStack<E>,
)
    requires
        householder_basis.wf(),
        householder_factor.wf(),
        old(matrix).wf(),
        householder_factor.spec_nrows() >= 1,
        householder_factor.spec_ncols() == householder_basis.spec_ncols(),
        householder_basis.spec_ncols() <= householder_basis.spec_nrows(),
        old(matrix).spec_ncols() == householder_basis.spec_nrows(),
        householder_factor.spec_nrows() * old(matrix).spec_nrows() <= old(stack).spec_len(),
    ensures
        final(matrix).wf(),
        final(matrix).same_shape(old(matrix)),
        final(stack).spec_len() == old(stack).spec_len(),
{
    let mut t = matrix.transpose();
    apply_block_householder_sequence_on_the_left_in_place_with_conj(
        householder_basis,
        householder_factor,
        conj_rhs,
        &mut t,
        parallelism,
        stack,
    );
    let back = t.transpose();
    matrix.copy_from(&back);
}

/// A dimension strictly above one block spans at least two blocks.
proof fn lemma_ceil_div_at_least_two(n: int, bs: int)
    requires
        bs >= 1,
        n > bs,
    ensures
        (n + bs - 1) / bs > 1,
{
    vstd::arithmetic::div_mod::lemma_fundamental_div_mod(n + bs - 1, bs);
    let q = (n + bs - 1) / bs;
    let r = (n + bs - 1) % bs;
    assert(q > 1) by (nonlinear_arith)
        requires
            bs >= 1,
            n > bs,
            n + bs - 1 == bs * q + r,
            0 <= r < bs,
    ;
}

/// Walking a sequence backwards starts with the remainder block: after
/// removing it, what is left is a multiple of the block size.
proof fn lemma_first_block(size: int, blocksize: int)
    requires
        size >= 0,
        blocksize >= 1,
    ensures
        size % blocksize != 0 ==> size % blocksize <= size && (size - size % blocksize)
            % blocksize == 0,
        size % blocksize == 0 ==> (size - blocksize) % blocksize == 0,
        size % blocksize == 0 && size > 0 ==> blocksize <= size,
{
    vstd::arithmetic::div_mod::lemma_fundamental_div_mod(size, blocksize);
    let q = size / blocksize;
    let r = size % blocksize;
    assert(0 <= r < blocksize);
    assert(size == blocksize * q + r);
    assert(q >= 0) by (nonlinear_arith)
        requires
            blocksize >= 1,
            size >= 0,
            size == blocksize * q + r,
            0 <= r < blocksize,
    ;
    assert(blocksize * q >= 0) by (nonlinear_arith)
        requires
            blocksize >= 1,
            q >= 0,
    ;
    if r != 0 {
        assert(size - r == blocksize * q);
        lemma_multiple_mod_zero(q, blocksize);
    } else {
        assert(size - blocksize == blocksize * (q - 1)) by (nonlinear_arith)
            requires
                size == blocksize * q + r,
                r == 0,
        ;
        lemma_multiple_mod_zero(q - 1, blocksize);
        if size > 0 {
            assert(q >= 1) by (nonlinear_arith)
                requires
                    size > 0,
                    blocksize >= 1,
                    size == blocksize * q,
            ;
            assert(blocksize <= size) by (nonlinear_arith)
                requires
                    q >= 1,
                    blocksize >= 1,
                    size == blocksize * q,
            ;
        }
    }
}

/// A multiple of the block size leaves no remainder.
proof fn lemma_multiple_mod_zero(q: int, blocksize: int)
    requires
        blocksize >= 1,
    ensures
        (blocksize * q) % blocksize == 0,
{
    vstd::arithmetic::div_mod::lemma_mod_multiples_basic(q, blocksize);
    assert(blocksize * q == q * blocksize) by (nonlinear_arith);
}

/// A positive multiple of the block size is at least one whole block, and
/// removing one block leaves a multiple.
proof fn lemma_next_block(j: int, blocksize: int)
    requires
        j >= 0,
        blocksize >= 1,
        j % blocksize == 0,
    ensures
        j > 0 ==> blocksize <= j,
        (j - blocksize) % blocksize == 0,
{
    vstd::arithmetic::div_mod::lemma_fundamental_div_mod(j, blocksize);
    let q = j / blocksize;
    assert(j == blocksize * q);
    assert(j - blocksize == blocksize * (q - 1)) by (nonlinear_arith)
        requires
            j == blocksize * q,
    ;
    lemma_multiple_mod_zero(q - 1, blocksize);
    if j > 0 {
        assert(q >= 1) by (nonlinear_arith)
            requires
                j > 0,
                blocksize >= 1,
                j == blocksize * q,
        ;
        assert(blocksize <= j) by (nonlinear_arith)
            requires
                q >= 1,
                blocksize >= 1,
                j == blocksize * q,
        ;
    }
}

/// A product of nonnegative factors grows with either factor.
proof fn lemma_mul_le(a: int, b: int, k: int)
    requires
        0 <= a <= b,
        0 <= k,
    ensures
        a * k <= b * k,
{
    vstd::arithmetic::mul::lemma_mul_inequality(a, b, k);
}

} // verus!
