//! Size and alignment arithmetic for records laid out field after field.

use vstd::arithmetic::div_mod::{
    lemma_fundamental_div_mod, lemma_fundamental_div_mod_converse, lemma_mod_multiples_basic,
    lemma_mod_self_0, lemma_mul_mod_noop_left, lemma_small_mod, lemma_sub_mod_noop,
};
use vstd::arithmetic::power::{lemma_pow_positive, pow};
use vstd::arithmetic::power2::{is_pow2, is_pow2_equiv, is_pow2_exists, lemma2_to64, lemma2_to64_rest};
use vstd::layout::{align_of, layout_for_type_is_valid, size_of, valid_layout};
use vstd::prelude::*;

verus! {

/// The smallest multiple of `align` that is not below `n`.
pub open spec fn round_up(n: int, align: int) -> int
    recommends
        align > 0,
{
    if n % align == 0 {
        n
    } else {
        n + (align - n % align)
    }
}

/// The distance from `n` up to the next multiple of `align`.
pub open spec fn padding_needed(n: int, align: int) -> int
    recommends
        align > 0,
{
    round_up(n, align) - n
}

/// The larger of two alignments.
pub open spec fn max_align(a: int, b: int) -> int {
    if a >= b {
        a
    } else {
        b
    }
}

/// Rounding up lands on a multiple of the alignment, less than one alignment away.
pub proof fn lemma_round_up_bounds(n: int, align: int)
    requires
        align > 0,
    ensures
        round_up(n, align) % align == 0,
        n <= round_up(n, align) < n + align,
{
    if n % align != 0 {
        lemma_fundamental_div_mod(n, align);
        let q = n / align;
        assert(round_up(n, align) == (q + 1) * align) by (nonlinear_arith)
            requires
                n == align * q + n % align,
                round_up(n, align) == n + (align - n % align),
        ;
        lemma_mod_multiples_basic(q + 1, align);
    }
}

/// No multiple of the alignment lies between a number and its rounding up.
pub proof fn lemma_round_up_least(n: int, align: int, m: int)
    requires
        align > 0,
        m % align == 0,
        n <= m,
    ensures
        round_up(n, align) <= m,
{
    let r = round_up(n, align);
    lemma_round_up_bounds(n, align);
    if r > m {
        lemma_sub_mod_noop(r, m, align);
        lemma_small_mod((r - m) as nat, align as nat);
    }
}

/// Rounding up keeps the order of the numbers it rounds.
pub proof fn lemma_round_up_monotonic(n1: int, n2: int, align: int)
    requires
        align > 0,
        n1 <= n2,
    ensures
        round_up(n1, align) <= round_up(n2, align),
{
    lemma_round_up_bounds(n2, align);
    lemma_round_up_least(n1, align, round_up(n2, align));
}

/// Rounding up to an alignment gives no more than rounding up to a multiple of it.
pub proof fn lemma_round_up_coarser(n: int, fine: int, coarse: int)
    requires
        fine > 0,
        coarse > 0,
        coarse % fine == 0,
    ensures
        round_up(n, fine) <= round_up(n, coarse),
{
    let r = round_up(n, coarse);
    lemma_round_up_bounds(n, coarse);
    lemma_fundamental_div_mod(r, coarse);
    lemma_fundamental_div_mod(coarse, fine);
    let k = (r / coarse) * (coarse / fine);
    assert(r == k * fine) by (nonlinear_arith)
        requires
            r == coarse * (r / coarse),
            coarse == fine * (coarse / fine),
            k == (r / coarse) * (coarse / fine),
    ;
    lemma_mod_multiples_basic(k, fine);
    lemma_round_up_least(n, fine, r);
}

/// Of two powers of two, the smaller divides the larger.
pub proof fn lemma_pow2_divides(small: int, large: int)
    requires
        is_pow2(small),
        is_pow2(large),
        small <= large,
    ensures
        large % small == 0,
    decreases small,
{
    reveal(is_pow2);
    if small > 1 {
        let s = small / 2;
        let l = large / 2;
        lemma_pow2_divides(s, l);
        lemma_fundamental_div_mod(l, s);
        let q = l / s;
        assert(large == q * small) by (nonlinear_arith)
            requires
                large == 2 * l,
                small == 2 * s,
                l == s * q,
        ;
        lemma_mod_multiples_basic(q, small);
    }
}

/// The bit test for a power of two agrees with the arithmetic definition.
proof fn lemma_pow2_bit_test(n: usize)
    ensures
        (n != 0 && n & ((n - 1) as usize) == 0) <==> is_pow2(n as int),
    decreases n,
{
    reveal(is_pow2);
    if n == 1 {
        assert(1usize & ((1usize - 1) as usize) == 0) by (bit_vector);
    } else if n > 1 {
        let h: usize = n / 2;
        lemma_pow2_bit_test(h);
        assert((n & ((n - 1) as usize) == 0) <==> (n % 2 == 0 && h != 0 && h & ((h - 1) as usize)
            == 0)) by (bit_vector)
            requires
                n > 1,
                h == n / 2,
        ;
    }
}

/// One more than `isize::MAX` is a power of two.
proof fn lemma_isize_limit_pow2()
    ensures
        is_pow2(isize::MAX + 1),
{
    lemma2_to64();
    lemma2_to64_rest();
    lemma_pow_positive(2, 31);
    lemma_pow_positive(2, 63);
    assert(pow(2, 31) == 0x8000_0000 && pow(2, 63) == 0x8000_0000_0000_0000);
    assert(is_pow2_exists(isize::MAX + 1));
    is_pow2_equiv(isize::MAX + 1);
}

/// A power of two that fits in `usize` is at most one more than `isize::MAX`,
/// and leaves the remainder `align - 1` when it divides `isize::MAX`.
pub proof fn lemma_pow2_align_limit(align: usize)
    requires
        is_pow2(align as int),
    ensures
        0 < align <= isize::MAX + 1,
        (isize::MAX + 1) % (align as int) == 0,
        (isize::MAX as int) % (align as int) == align - 1,
{
    reveal(is_pow2);
    let limit = isize::MAX + 1;
    let a = align as int;
    lemma_isize_limit_pow2();
    if a > limit {
        lemma_pow2_divides(limit, a);
        lemma_fundamental_div_mod(a, limit);
        assert(a >= 2 * limit) by (nonlinear_arith)
            requires
                a == limit * (a / limit),
                a > limit,
                limit > 0,
        ;
    }
    lemma_pow2_divides(a, limit);
    lemma_fundamental_div_mod(limit, a);
    let q = limit / a;
    assert(q >= 1) by (nonlinear_arith)
        requires
            limit == a * q,
            limit > 0,
            a > 0,
    ;
    assert(isize::MAX as int == (q - 1) * a + (a - 1)) by (nonlinear_arith)
        requires
            isize::MAX + 1 == a * q,
    ;
    lemma_fundamental_div_mod_converse(isize::MAX as int, a, q - 1, a - 1);
}

/// A layout is valid exactly when its alignment is a power of two and its
/// size, rounded up to the alignment, does not exceed `isize::MAX`.
pub proof fn lemma_valid_layout(size: usize, align: usize)
    ensures
        valid_layout(size, align) <==> is_pow2(align as int) && round_up(
            size as int,
            align as int,
        ) <= isize::MAX,
{
    if is_pow2(align as int) {
        let a = align as int;
        lemma_pow2_align_limit(align);
        let bound = isize::MAX - (isize::MAX as int % a);
        assert(bound == (isize::MAX + 1) - a);
        lemma_sub_mod_noop(isize::MAX + 1, a, a);
        lemma_mod_self_0(a);
        lemma_small_mod(0, a as nat);
        assert(bound % a == 0);
        lemma_round_up_bounds(size as int, a);
        if size <= bound {
            lemma_round_up_least(size as int, a, bound);
        }
        if round_up(size as int, a) <= isize::MAX {
            let r = round_up(size as int, a);
            if r > bound {
                lemma_sub_mod_noop(r, bound, a);
                lemma_small_mod((r - bound) as nat, a as nat);
            }
        }
    }
}

/// Reported when a size computation does not fit the address space.
#[derive(Clone, Copy, Debug, PartialEq, Eq, Structural)]
pub struct LayoutErr;

/// The size and alignment of a block of memory.
///
/// The alignment is a power of two, and the size rounded up to the alignment
/// does not exceed `isize::MAX`.
#[derive(Clone, Copy, Debug, PartialEq, Eq, Hash, Structural)]
pub struct Layout {
    size: usize,
    align: usize,
}

/// Tells whether a number is a power of two.
pub fn is_power_of_two(n: usize) -> (b: bool)
    ensures
        b == is_pow2(n as int),
{
    proof {
        lemma_pow2_bit_test(n);
    }
    n != 0 && n & (n - 1) == 0
}

/// The error value of every layout computation.
pub fn layout_err() -> (e: LayoutErr)
    ensures
        e == LayoutErr,
{
    LayoutErr
}

impl Layout {
    /// Every `Layout` that executable code can hold is valid.
    #[verifier::type_invariant]
    pub open spec fn valid(&self) -> bool {
        valid_layout(self.spec_size(), self.spec_align())
    }

    /// The size in bytes.
    pub closed spec fn spec_size(&self) -> usize {
        self.size
    }

    /// The alignment in bytes.
    pub closed spec fn spec_align(&self) -> usize {
        self.align
    }

    /// What validity means: a positive power-of-two alignment, and a size that
    /// stays within `isize::MAX` when rounded up to it.
    pub proof fn lemma_valid(self)
        requires
            self.valid(),
        ensures
            is_pow2(self.align() as int),
            0 < self.align() <= isize::MAX + 1,
            round_up(self.size() as int, self.align() as int) <= isize::MAX,
            self.size() <= round_up(self.size() as int, self.align() as int),
    {
        lemma_pow2_align_limit(self.align());
        lemma_valid_layout(self.size(), self.align());
        lemma_round_up_bounds(self.size() as int, self.align() as int);
    }

    /// The layout with the given size and alignment, if that is a valid one.
    pub fn from_size_align(size: usize, align: usize) -> (r: Result<Layout, LayoutErr>)
        ensures
            r is Ok <==> valid_layout(size, align),
            r matches Ok(l) ==> l.size() == size && l.align() == align,
    {
        if !is_power_of_two(align) {
            return Err(layout_err());
        }
        proof {
            lemma_pow2_align_limit(align);
        }
        if size > (isize::MAX as usize) - (align - 1) {
            return Err(layout_err());
        }
        Ok(Layout { size, align })
    }

    /// The layout of a value of type `T`.
    pub fn new<T>() -> (l: Layout)
        ensures
            l.size() == size_of::<T>(),
            l.align() == align_of::<T>(),
    {
        layout_for_type_is_valid::<T>();
        Layout { size: core::mem::size_of::<T>(), align: core::mem::align_of::<T>() }
    }

    /// The size in bytes.
    #[verifier::when_used_as_spec(spec_size)]
    pub fn size(&self) -> (s: usize)
        ensures
            s == self.size(),
            self.valid(),
    {
        proof {
            use_type_invariant(self);
        }
        self.size
    }

    /// The alignment in bytes.
    #[verifier::when_used_as_spec(spec_align)]
    pub fn align(&self) -> (a: usize)
        ensures
            a == self.align(),
            self.valid(),
    {
        proof {
            use_type_invariant(self);
        }
        self.align
    }
}

/// The padding that must follow `this` so that the next address is a multiple of `align`.
pub fn layout_padding_needed_for(this: &Layout, align: usize) -> (pad: usize)
    requires
        align > 0,
    ensures
        pad == padding_needed(this.size() as int, align as int),
{
    let rest = this.size() % align;
    if rest == 0 {
        0
    } else {
        align - rest
    }
}

/// The layout with the size of `this` rounded up to its own alignment.
pub fn pad_layout_to_align(this: &Layout) -> (l: Layout)
    ensures
        l.size() == round_up(this.size() as int, this.align() as int),
        l.align() == this.align(),
{
    let size = this.size();
    let align = this.align();
    proof {
        this.lemma_valid();
        lemma_round_up_bounds(size as int, align as int);
    }
    let pad = layout_padding_needed_for(this, align);
    let new_size = size + pad;
    proof {
        lemma_valid_layout(new_size, align);
    }
    Layout { size: new_size, align }
}

/// Where a field laid out as `next` starts when it is placed behind `this`.
pub open spec fn extend_offset(this: Layout, next: Layout) -> int {
    round_up(this.size() as int, next.align() as int)
}

/// The size of `this` followed by a field laid out as `next`, without trailing padding.
pub open spec fn extend_size(this: Layout, next: Layout) -> int {
    extend_offset(this, next) + next.size()
}

/// The alignment of `this` followed by a field laid out as `next`.
pub open spec fn extend_align(this: Layout, next: Layout) -> int {
    max_align(this.align() as int, next.align() as int)
}

/// The layout of `this` followed by a field laid out as `next`, and the offset of that field.
///
/// Fails exactly when the extended size, rounded up to the joint alignment,
/// would exceed `isize::MAX`.
pub fn extend_layout(this: &Layout, next: Layout) -> (r: Result<(Layout, usize), LayoutErr>)
    ensures
        r is Ok <==> round_up(extend_size(*this, next), extend_align(*this, next)) <= isize::MAX,
        r matches Ok((l, offset)) ==> {
            &&& offset == extend_offset(*this, next)
            &&& l.size() == extend_size(*this, next)
            &&& l.align() == extend_align(*this, next)
        },
{
    let this_align = this.align();
    let next_align = next.align();
    let new_align = if this_align >= next_align {
        this_align
    } else {
        next_align
    };
    proof {
        this.lemma_valid();
        next.lemma_valid();
        lemma_round_up_bounds(this.size() as int, next_align as int);
        lemma_round_up_bounds(extend_size(*this, next), new_align as int);
    }
    let pad = layout_padding_needed_for(this, next_align);
    let offset = this.size() + pad;
    let new_size = match offset.checked_add(next.size()) {
        Some(total) => total,
        None => {
            return Err(layout_err());
        },
    };
    proof {
        lemma_valid_layout(new_size, new_align);
    }
    match Layout::from_size_align(new_size, new_align) {
        Ok(layout) => Ok((layout, offset)),
        Err(e) => Err(e),
    }
}

/// The layout of `n` copies of `this` in a row, each padded to the alignment,
/// and the distance from one copy to the next.
///
/// Fails exactly when the total size would exceed `isize::MAX`.
pub fn repeat_layout(this: &Layout, n: usize) -> (r: Result<(Layout, usize), LayoutErr>)
    ensures
        r is Ok <==> round_up(this.size() as int, this.align() as int) * n <= isize::MAX,
        r matches Ok((l, stride)) ==> {
            &&& stride == round_up(this.size() as int, this.align() as int)
            &&& l.size() == stride * n
            &&& l.align() == this.align()
        },
{
    let align = this.align();
    let padded_size = pad_layout_to_align(this).size();
    proof {
        this.lemma_valid();
        lemma_round_up_bounds(this.size() as int, align as int);
        lemma_mul_mod_noop_left(padded_size as int, n as int, align as int);
        lemma_small_mod(0, align as nat);
        assert((padded_size * n) % (align as int) == 0) by {
            assert(0 * n == 0);
        }
    }
    let alloc_size = match padded_size.checked_mul(n) {
        Some(total) => total,
        None => {
            return Err(layout_err());
        },
    };
    proof {
        lemma_valid_layout(alloc_size, align);
    }
    match Layout::from_size_align(alloc_size, align) {
        Ok(layout) => Ok((layout, padded_size)),
        Err(e) => Err(e),
    }
}

/// The layout of an array of `n` values of type `T`.
///
/// Fails exactly when the array would be larger than `isize::MAX` bytes.
pub fn layout_array<T>(n: usize) -> (r: Result<Layout, LayoutErr>)
    ensures
        r is Ok <==> size_of::<T>() * n <= isize::MAX,
        r matches Ok(l) ==> l.size() == size_of::<T>() * n && l.align() == align_of::<T>(),
{
    layout_for_type_is_valid::<T>();
    let element = Layout::new::<T>();
    match repeat_layout(&element, n) {
        Ok((layout, _)) => Ok(layout),
        Err(e) => Err(e),
    }
}

/// Where the second field of a record starts.
pub open spec fn record_offset_1(first: Layout, second: Layout) -> int {
    round_up(first.size() as int, second.align() as int)
}

/// Where the third field of a record starts.
pub open spec fn record_offset_2(first: Layout, second: Layout, third: Layout) -> int {
    round_up(record_offset_1(first, second) + second.size(), third.align() as int)
}

/// The alignment of a record: the largest alignment among its fields.
pub open spec fn record_align(first: Layout, second: Layout, third: Layout) -> int {
    max_align(max_align(first.align() as int, second.align() as int), third.align() as int)
}

/// The size of a record: the end of its third field, rounded up to the record's alignment.
pub open spec fn record_size(first: Layout, second: Layout, third: Layout) -> int {
    round_up(
        record_offset_2(first, second, third) + third.size(),
        record_align(first, second, third),
    )
}

/// The fields of a record lie in order without overlapping, each at a
/// multiple of its own alignment and as early as that allows; the record's
/// alignment is a multiple of each field's, and its size a multiple of its
/// alignment.
pub proof fn lemma_record_layout(first: Layout, second: Layout, third: Layout)
    requires
        first.valid(),
        second.valid(),
        third.valid(),
    ensures
        first.size() <= record_offset_1(first, second) < first.size() + second.align(),
        record_offset_1(first, second) + second.size() <= record_offset_2(first, second, third),
        record_offset_2(first, second, third) < record_offset_1(first, second) + second.size()
            + third.align(),
        record_offset_2(first, second, third) + third.size() <= record_size(first, second, third),
        record_offset_1(first, second) % (second.align() as int) == 0,
        record_offset_2(first, second, third) % (third.align() as int) == 0,
        record_size(first, second, third) % record_align(first, second, third) == 0,
        is_pow2(record_align(first, second, third)),
        record_align(first, second, third) % (first.align() as int) == 0,
        record_align(first, second, third) % (second.align() as int) == 0,
        record_align(first, second, third) % (third.align() as int) == 0,
{
    first.lemma_valid();
    second.lemma_valid();
    third.lemma_valid();
    let align = record_align(first, second, third);
    lemma_round_up_bounds(first.size() as int, second.align() as int);
    lemma_round_up_bounds(
        record_offset_1(first, second) + second.size(),
        third.align() as int,
    );
    lemma_round_up_bounds(record_offset_2(first, second, third) + third.size(), align);
    lemma_pow2_divides(first.align() as int, align);
    lemma_pow2_divides(second.align() as int, align);
    lemma_pow2_divides(third.align() as int, align);
}

/// The layout of a record of three fields placed one after another in the
/// given order, and the offset of each field.
///
/// Every field starts at the first multiple of its alignment behind the end
/// of the field before it, and the record is padded at its end to a multiple
/// of its alignment. Fails exactly when that padded size would exceed
/// `isize::MAX`.
pub fn repr_c_3(fields: [Layout; 3]) -> (r: Result<(Layout, [usize; 3]), LayoutErr>)
    ensures
        r is Ok <==> record_size(fields[0], fields[1], fields[2]) <= isize::MAX,
        r matches Ok((l, offsets)) ==> {
            &&& l.size() == record_size(fields[0], fields[1], fields[2])
            &&& l.align() == record_align(fields[0], fields[1], fields[2])
            &&& offsets[0] == 0
            &&& offsets[1] == record_offset_1(fields[0], fields[1])
            &&& offsets[2] == record_offset_2(fields[0], fields[1], fields[2])
        },
{
    let first = fields[0];
    let second = fields[1];
    let third = fields[2];
    proof {
        use_type_invariant(&first);
        use_type_invariant(&second);
        use_type_invariant(&third);
        lemma_record_layout(first, second, third);
        let joint = extend_align(first, second);
        let align = record_align(first, second, third);
        let end_1 = record_offset_1(first, second) + second.size();
        let end_2 = record_offset_2(first, second, third) + third.size();
        lemma_pow2_divides(joint, align);
        lemma_round_up_coarser(end_1, joint, align);
        lemma_round_up_monotonic(end_1, end_2, align);
    }
    let (front, offset_1) = match extend_layout(&first, second) {
        Ok(extended) => extended,
        Err(e) => {
            return Err(e);
        },
    };
    let (whole, offset_2) = match extend_layout(&front, third) {
        Ok(extended) => extended,
        Err(e) => {
            return Err(e);
        },
    };
    Ok((pad_layout_to_align(&whole), [0, offset_1, offset_2]))
}

} // verus!
