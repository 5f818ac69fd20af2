use vstd::prelude::*;

verus! {

/// `value` rounded up to the nearest multiple of `align`; unchanged when
/// `align <= 1` or when `value` is already aligned.
pub open spec fn spec_align_up(value: int, align: int) -> int {
    if align <= 1 || value % align == 0 {
        value
    } else {
        value + (align - value % align)
    }
}

/// Round `value` up to the nearest multiple of `align`. Returns `value`
/// unchanged if it is already aligned, or if `align <= 1`.
pub fn align_up(value: u64, align: u64) -> (r: u64)
    requires
        spec_align_up(value as int, align as int) <= u64::MAX,
    ensures
        r == spec_align_up(value as int, align as int),
        align > 1 ==> r % align == 0 && value <= r < value + align,
        align <= 1 ==> r == value,
        value % align == 0 ==> r == value,
{
    if align <= 1 {
        value
    } else {
        let rem = value % align;
        if rem == 0 {
            value
        } else {
            proof {
                lemma_align_up_bounds(value as int, align as int);
            }
            value + (align - rem)
        }
    }
}

proof fn lemma_align_up_bounds(value: int, align: int)
    requires
        align > 1,
        value >= 0,
    ensures
        spec_align_up(value, align) % align == 0,
        value <= spec_align_up(value, align) < value + align,
{
    let rem = value % align;
    assert(0 <= rem < align) by (nonlinear_arith)
        requires
            align > 1,
            rem == value % align,
    ;
    if rem != 0 {
        assert((value + (align - rem)) % align == 0) by (nonlinear_arith)
            requires
                align > 1,
                rem == value % align,
        ;
    }
}

/// Rounding up never goes past `align` for a smaller value, nor past
/// twice the value otherwise.
pub(crate) proof fn lemma_align_up_at_most(value: nat, align: nat)
    ensures
        spec_align_up(value as int, align as int) <= if value < align {
            align as int
        } else {
            2 * value as int
        },
{
    if align > 1 {
        lemma_align_up_bounds(value as int, align as int);
        if value < align {
            vstd::arithmetic::div_mod::lemma_small_mod(value, align);
        }
    }
}

/// Rounding up is idempotent: an aligned value stays where it is.
pub proof fn lemma_align_up_idempotent(value: nat, align: nat)
    ensures
        spec_align_up(spec_align_up(value as int, align as int), align as int) == spec_align_up(
            value as int,
            align as int,
        ),
{
    if align > 1 {
        lemma_align_up_bounds(value as int, align as int);
    }
}

} // verus!
