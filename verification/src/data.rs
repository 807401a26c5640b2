//! The composite value: a length word, a head and a tail, in one block.

use crate::layout::{
    layout_array, lemma_pow2_divides, lemma_round_up_bounds, lemma_round_up_monotonic, max_align,
    repr_c_3, round_up, Layout, LayoutErr,
};
use vstd::arithmetic::div_mod::{lemma_mod_adds, lemma_mul_mod_noop_left, lemma_small_mod};
use core::marker::PhantomData;
use vstd::layout::{align_of, size_of};
use vstd::prelude::*;
use vstd::std_specs::cmp::{PartialEqSpec, PartialEqSpecImpl};

verus! {

/// Where the head of a composite starts: behind the length word, at the
/// first multiple of the head's alignment.
pub open spec fn thin_head_offset<Head>() -> int {
    round_up(size_of::<usize>() as int, align_of::<Head>() as int)
}

/// Where the tail of a composite starts: behind the head, at the first
/// multiple of the item's alignment.
pub open spec fn thin_slice_offset<Head, SliceItem>() -> int {
    round_up(thin_head_offset::<Head>() + size_of::<Head>(), align_of::<SliceItem>() as int)
}

/// The alignment of a composite: the largest among the length word, the head and the items.
pub open spec fn thin_align<Head, SliceItem>() -> int {
    max_align(
        max_align(align_of::<usize>() as int, align_of::<Head>() as int),
        align_of::<SliceItem>() as int,
    )
}

/// Where the tail of a composite with `len` items ends.
pub open spec fn thin_slice_end<Head, SliceItem>(len: int) -> int {
    thin_slice_offset::<Head, SliceItem>() + size_of::<SliceItem>() * len
}

/// The size of the block that holds a composite with `len` items.
pub open spec fn thin_size<Head, SliceItem>(len: int) -> int {
    round_up(thin_slice_end::<Head, SliceItem>(len), thin_align::<Head, SliceItem>())
}

/// Whether a composite with `len` items fits the address space.
pub open spec fn thin_fits<Head, SliceItem>(len: int) -> bool {
    thin_size::<Head, SliceItem>(len) <= isize::MAX
}

/// The layout of the block that holds a composite with `len` items, and the
/// offsets of the length word, the head and the tail in it.
///
/// Fails exactly when the block would be larger than `isize::MAX` bytes.
pub fn thin_layout<Head, SliceItem>(len: usize) -> (r: Result<(Layout, [usize; 3]), LayoutErr>)
    ensures
        r is Ok <==> thin_fits::<Head, SliceItem>(len as int),
        r matches Ok((l, offsets)) ==> {
            &&& l.size() == thin_size::<Head, SliceItem>(len as int)
            &&& l.align() == thin_align::<Head, SliceItem>()
            &&& offsets[0] == 0
            &&& offsets[1] == thin_head_offset::<Head>()
            &&& offsets[2] == thin_slice_offset::<Head, SliceItem>()
        },
{
    let length_layout = Layout::new::<usize>();
    let head_layout = Layout::new::<Head>();
    proof {
        lemma_thin_size_bounds::<Head, SliceItem>(len as int);
    }
    let slice_layout = match layout_array::<SliceItem>(len) {
        Ok(layout) => layout,
        Err(e) => {
            return Err(e);
        },
    };
    repr_c_3([length_layout, head_layout, slice_layout])
}

/// The block of a composite is at least as large as its tail, and reaches its end.
pub proof fn lemma_thin_size_bounds<Head, SliceItem>(len: int)
    requires
        len >= 0,
    ensures
        0 <= thin_head_offset::<Head>(),
        thin_head_offset::<Head>() + size_of::<Head>() <= thin_slice_offset::<Head, SliceItem>(),
        size_of::<SliceItem>() * len <= thin_slice_end::<Head, SliceItem>(len),
        thin_slice_end::<Head, SliceItem>(len) <= thin_size::<Head, SliceItem>(len),
{
    broadcast use vstd::layout::align_nonzero;

    lemma_round_up_bounds(size_of::<usize>() as int, align_of::<Head>() as int);
    lemma_round_up_bounds(
        thin_head_offset::<Head>() + size_of::<Head>(),
        align_of::<SliceItem>() as int,
    );
    lemma_round_up_bounds(
        thin_slice_end::<Head, SliceItem>(len),
        thin_align::<Head, SliceItem>(),
    );
    assert(size_of::<SliceItem>() * len >= 0) by (nonlinear_arith)
        requires
            len >= 0,
    ;
}

/// In the block of a composite the length word, the head and every item lie
/// in this order without overlapping, each at a multiple of its own
/// alignment, and the last item ends inside the block. The alignment of the
/// block is a multiple of each of theirs, and its size a multiple of its
/// alignment.
pub proof fn lemma_thin_layout<Head, SliceItem>(len: int, index: int)
    requires
        0 <= index < len,
    ensures
        size_of::<usize>() <= thin_head_offset::<Head>(),
        thin_head_offset::<Head>() % (align_of::<Head>() as int) == 0,
        thin_head_offset::<Head>() + size_of::<Head>() <= thin_slice_offset::<Head, SliceItem>(),
        thin_slice_offset::<Head, SliceItem>() <= thin_slice_end::<Head, SliceItem>(index),
        thin_slice_end::<Head, SliceItem>(index) % (align_of::<SliceItem>() as int) == 0,
        thin_slice_end::<Head, SliceItem>(index) + size_of::<SliceItem>() == thin_slice_end::<
            Head,
            SliceItem,
        >(index + 1),
        thin_slice_end::<Head, SliceItem>(index + 1) <= thin_slice_end::<Head, SliceItem>(len),
        thin_slice_end::<Head, SliceItem>(len) <= thin_size::<Head, SliceItem>(len),
        thin_size::<Head, SliceItem>(len) % thin_align::<Head, SliceItem>() == 0,
        thin_align::<Head, SliceItem>() % (align_of::<usize>() as int) == 0,
        thin_align::<Head, SliceItem>() % (align_of::<Head>() as int) == 0,
        thin_align::<Head, SliceItem>() % (align_of::<SliceItem>() as int) == 0,
{
    broadcast use vstd::layout::align_nonzero, vstd::layout::align_properties;

    let size = size_of::<SliceItem>() as int;
    let align = align_of::<SliceItem>() as int;
    let whole = thin_align::<Head, SliceItem>();
    lemma_thin_size_bounds::<Head, SliceItem>(len);
    lemma_thin_size_bounds::<Head, SliceItem>(index);
    lemma_round_up_bounds(size_of::<usize>() as int, align_of::<Head>() as int);
    lemma_round_up_bounds(thin_head_offset::<Head>() + size_of::<Head>(), align);
    lemma_round_up_bounds(thin_slice_end::<Head, SliceItem>(len), whole);
    assert(size * (index + 1) == size * index + size && size * (index + 1) <= size * len)
        by (nonlinear_arith)
        requires
            0 <= index < len,
            size >= 0,
    ;
    assert((thin_slice_offset::<Head, SliceItem>() + size * index) % align == 0) by {
        lemma_mul_mod_noop_left(size, index, align);
        lemma_small_mod(0, align as nat);
        assert(0 * index == 0);
        lemma_mod_adds(thin_slice_offset::<Head, SliceItem>(), size * index, align);
    }
    lemma_pow2_divides(align_of::<usize>() as int, whole);
    lemma_pow2_divides(align_of::<Head>() as int, whole);
    lemma_pow2_divides(align, whole);
}

/// A composite with fewer items needs no larger a block.
pub proof fn lemma_thin_size_monotonic<Head, SliceItem>(shorter: int, longer: int)
    requires
        0 <= shorter <= longer,
    ensures
        thin_size::<Head, SliceItem>(shorter) <= thin_size::<Head, SliceItem>(longer),
        thin_fits::<Head, SliceItem>(longer) ==> thin_fits::<Head, SliceItem>(shorter),
{
    broadcast use vstd::layout::align_nonzero;

    assert(size_of::<SliceItem>() * shorter <= size_of::<SliceItem>() * longer)
        by (nonlinear_arith)
        requires
            0 <= shorter <= longer,
    ;
    lemma_round_up_monotonic(
        thin_slice_end::<Head, SliceItem>(shorter),
        thin_slice_end::<Head, SliceItem>(longer),
        thin_align::<Head, SliceItem>(),
    );
}

/// With items of size zero the block has the same size for every length.
pub proof fn lemma_thin_size_zero_sized<Head, SliceItem>(len: int)
    requires
        size_of::<SliceItem>() == 0,
    ensures
        thin_size::<Head, SliceItem>(len) == thin_size::<Head, SliceItem>(0),
{
    assert(size_of::<SliceItem>() * len == 0) by (nonlinear_arith)
        requires
            size_of::<SliceItem>() == 0,
    ;
}

/// What a composite holds: its head and the items of its tail, in order.
pub struct Composite<Head, SliceItem> {
    pub head: Head,
    pub tail: Seq<SliceItem>,
}

/// Whether two composites have equal heads and tails that are equal item by item.
pub open spec fn composite_eq<Head: PartialEq, SliceItem: PartialEq>(
    left: Composite<Head, SliceItem>,
    right: Composite<Head, SliceItem>,
) -> bool {
    &&& left.head.eq_spec(&right.head)
    &&& left.tail.len() == right.tail.len()
    &&& forall|i: int| #![auto] 0 <= i < left.tail.len() ==> left.tail[i].eq_spec(&right.tail[i])
}

/// A head together with a tail of items, and the number of those items.
///
/// The stored length always equals the number of items in the tail, and a
/// block for that many items fits the address space. When a composite is
/// released, its items go first, in their order, and its head last.
#[derive(Debug, Eq, Hash)]
pub struct ThinData<Head, SliceItem> {
    len: usize,
    slice: Vec<SliceItem>,
    head: Head,
}

impl<Head, SliceItem> View for ThinData<Head, SliceItem> {
    type V = Composite<Head, SliceItem>;

    closed spec fn view(&self) -> Composite<Head, SliceItem> {
        Composite { head: self.head, tail: self.slice@ }
    }
}

impl<Head, SliceItem> ThinData<Head, SliceItem> {
    #[verifier::type_invariant]
    spec fn well_formed(&self) -> bool {
        &&& self.len == self.slice@.len()
        &&& thin_fits::<Head, SliceItem>(self.len as int)
    }

    /// The stored length word.
    pub closed spec fn spec_len(&self) -> usize {
        self.len
    }

    /// The stored length: the number of items in the tail.
    #[verifier::when_used_as_spec(spec_len)]
    pub fn len(&self) -> (n: usize)
        ensures
            n == self.len(),
            n == self@.tail.len(),
            thin_fits::<Head, SliceItem>(n as int),
    {
        proof {
            use_type_invariant(self);
        }
        self.len
    }

    /// The head.
    pub fn head(&self) -> (head: &Head)
        ensures
            *head == self@.head,
    {
        &self.head
    }

    /// The items of the tail.
    pub fn slice(&self) -> (slice: &[SliceItem])
        ensures
            slice@ == self@.tail,
    {
        self.slice.as_slice()
    }

    /// The layout of the block that holds this composite, and the offsets of
    /// the length word, the head and the tail in it, worked out anew from
    /// the stored length.
    pub fn layout(&self) -> (shape: (Layout, [usize; 3]))
        ensures
            shape.0.size() == thin_size::<Head, SliceItem>(self.len() as int),
            shape.0.align() == thin_align::<Head, SliceItem>(),
            shape.1[0] == 0,
            shape.1[1] == thin_head_offset::<Head>(),
            shape.1[2] == thin_slice_offset::<Head, SliceItem>(),
    {
        match thin_layout::<Head, SliceItem>(self.len()) {
            Ok(shape) => shape,
            Err(_) => unreached(),
        }
    }

    /// Takes the composite apart into its head and the items of its tail.
    pub fn into_parts(self) -> (parts: (Head, Vec<SliceItem>))
        ensures
            parts.0 == self@.head,
            parts.1@ == self@.tail,
    {
        (self.head, self.slice)
    }

    /// Puts a new head in place and hands out the one that was there.
    pub fn replace_head(&mut self, head: Head) -> (previous: Head)
        ensures
            previous == old(self)@.head,
            final(self)@.head == head,
            final(self)@.tail == old(self)@.tail,
            final(self).len() == old(self).len(),
    {
        proof {
            use_type_invariant(&*self);
        }
        let mut head = head;
        core::mem::swap(&mut self.head, &mut head);
        head
    }

    /// Puts a new item in place at `index` and hands out the one that was
    /// there. The number of items stays.
    pub fn replace_item(&mut self, index: usize, item: SliceItem) -> (previous: SliceItem)
        requires
            index < old(self)@.tail.len(),
        ensures
            previous == old(self)@.tail[index as int],
            final(self)@.tail == old(self)@.tail.update(index as int, item),
            final(self)@.head == old(self)@.head,
            final(self).len() == old(self).len(),
    {
        proof {
            use_type_invariant(&*self);
        }
        let mut item = item;
        core::mem::swap(&mut self.slice[index], &mut item);
        item
    }
}

impl<Head: PartialEq, SliceItem: PartialEq> PartialEqSpecImpl for ThinData<Head, SliceItem> {
    open spec fn obeys_eq_spec() -> bool {
        Head::obeys_eq_spec() && SliceItem::obeys_eq_spec()
    }

    open spec fn eq_spec(&self, other: &Self) -> bool {
        composite_eq(self@, other@)
    }
}

impl<Head: PartialEq, SliceItem: PartialEq> PartialEq for ThinData<Head, SliceItem> {
    /// Two composites are equal when their heads are equal and their tails
    /// are equal item by item.
    fn eq(&self, other: &Self) -> (r: bool) {
        self.head == other.head && self.slice == other.slice
    }
}

/// A composite under construction: the block has been laid out for `len`
/// items, and some leading part of the tail has been written.
///
/// The items written so far are the only ones the block holds; giving the
/// value up before `finish` releases exactly those.
pub struct InProgress<Head, SliceItem> {
    len: usize,
    layout: Layout,
    head_offset: usize,
    slice_offset: usize,
    items: Vec<SliceItem>,
    marker: PhantomData<Head>,
}

impl<Head, SliceItem> InProgress<Head, SliceItem> {
    #[verifier::type_invariant]
    spec fn well_formed(&self) -> bool {
        &&& self.items@.len() <= self.len
        &&& thin_fits::<Head, SliceItem>(self.len as int)
        &&& self.layout.size() == thin_size::<Head, SliceItem>(self.len as int)
        &&& self.layout.align() == thin_align::<Head, SliceItem>()
        &&& self.head_offset == thin_head_offset::<Head>()
        &&& self.slice_offset == thin_slice_offset::<Head, SliceItem>()
    }

    /// The number of items the finished composite will hold.
    pub closed spec fn spec_len(&self) -> usize {
        self.len
    }

    /// The items written so far, in the order they were written.
    pub closed spec fn written(&self) -> Seq<SliceItem> {
        self.items@
    }

    /// Lays out a block for `len` items, with none of them written yet.
    ///
    /// Fails exactly when such a block would be larger than `isize::MAX` bytes.
    pub fn new(len: usize) -> (r: Result<Self, LayoutErr>)
        ensures
            r is Ok <==> thin_fits::<Head, SliceItem>(len as int),
            r matches Ok(this) ==> this.len() == len && this.written() == Seq::<SliceItem>::empty(),
    {
        let (layout, offsets) = match thin_layout::<Head, SliceItem>(len) {
            Ok(shape) => shape,
            Err(e) => {
                return Err(e);
            },
        };
        Ok(
            InProgress {
                len,
                layout,
                head_offset: offsets[1],
                slice_offset: offsets[2],
                items: Vec::with_capacity(len),
                marker: PhantomData,
            },
        )
    }

    /// The number of items the finished composite will hold.
    #[verifier::when_used_as_spec(spec_len)]
    pub fn len(&self) -> (n: usize)
        ensures
            n == self.len(),
            self.written().len() <= n,
            thin_fits::<Head, SliceItem>(n as int),
    {
        proof {
            use_type_invariant(self);
        }
        self.len
    }

    /// The layout of the block, and the offsets of the length word, the head
    /// and the tail in it.
    pub fn layout(&self) -> (shape: (Layout, [usize; 3]))
        ensures
            shape.0.size() == thin_size::<Head, SliceItem>(self.len() as int),
            shape.0.align() == thin_align::<Head, SliceItem>(),
            shape.1[0] == 0,
            shape.1[1] == thin_head_offset::<Head>(),
            shape.1[2] == thin_slice_offset::<Head, SliceItem>(),
    {
        proof {
            use_type_invariant(self);
        }
        (self.layout, [0, self.head_offset, self.slice_offset])
    }

    /// The number of items written so far.
    pub fn written_len(&self) -> (n: usize)
        ensures
            n == self.written().len(),
            n <= self.len(),
    {
        proof {
            use_type_invariant(self);
        }
        self.items.len()
    }

    /// Writes the next item of the tail.
    pub fn push(&mut self, item: SliceItem)
        requires
            old(self).written().len() < old(self).len(),
        ensures
            final(self).len() == old(self).len(),
            final(self).written() == old(self).written().push(item),
    {
        proof {
            use_type_invariant(&*self);
        }
        let mut items = Vec::new();
        core::mem::swap(&mut items, &mut self.items);
        items.push(item);
        self.items = items;
    }

    /// Writes the head behind a complete tail and hands out the composite.
    pub fn finish(self, head: Head) -> (data: ThinData<Head, SliceItem>)
        requires
            self.written().len() == self.len(),
        ensures
            data@.head == head,
            data@.tail == self.written(),
            data.len() == self.len(),
    {
        proof {
            use_type_invariant(&self);
        }
        ThinData { len: self.len, slice: self.items, head }
    }
}

} // verus!
