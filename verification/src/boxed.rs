//! The uniquely owning thin handle.

use crate::data::{
    composite_eq, thin_align, thin_fits, thin_head_offset, thin_layout, thin_size,
    thin_slice_offset, Composite, InProgress, ThinData,
};
use crate::layout::{layout_err, Layout, LayoutErr};
use vstd::prelude::*;
use vstd::std_specs::cmp::{PartialEqSpec, PartialEqSpecImpl};
use vstd::std_specs::convert::FromSpecImpl;
use vstd::std_specs::iter::IteratorSpec;

verus! {

/// Why a composite could not be built from a source of items.
#[derive(Clone, Copy, Debug, PartialEq, Eq, Structural)]
pub enum BuildError {
    /// A block for the declared number of items would not fit the address space.
    Oversize,
    /// The source ended before it had given as many items as were declared.
    OverReported,
    /// The source had more items to give than were declared.
    UnderReported,
}

/// A thin handle that owns its composite alone.
#[derive(Debug, Eq, Hash)]
pub struct ThinBox<Head, SliceItem> {
    raw: Box<ThinData<Head, SliceItem>>,
}

impl<Head, SliceItem> View for ThinBox<Head, SliceItem> {
    type V = Composite<Head, SliceItem>;

    closed spec fn view(&self) -> Composite<Head, SliceItem> {
        self.raw@
    }
}

impl<Head, SliceItem> ThinBox<Head, SliceItem> {
    /// The layout of the block behind a handle with `len` items, and the
    /// offsets of the length word, the head and the tail in it.
    pub fn layout(len: usize) -> (r: Result<(Layout, [usize; 3]), LayoutErr>)
        ensures
            r is Ok <==> thin_fits::<Head, SliceItem>(len as int),
            r matches Ok((l, offsets)) ==> {
                &&& l.size() == thin_size::<Head, SliceItem>(len as int)
                &&& l.align() == thin_align::<Head, SliceItem>()
                &&& offsets[0] == 0
                &&& offsets[1] == thin_head_offset::<Head>()
                &&& offsets[2] == thin_slice_offset::<Head, SliceItem>()
            },
    {
        thin_layout::<Head, SliceItem>(len)
    }

    /// A handle to a new composite with the given head, whose tail is what
    /// a source of items gives, of which `declared` says how many there are.
    ///
    /// A block is laid out for `declared` items. Then that many items are
    /// taken from the source and written in their order, and the source is
    /// asked once more, to see that it has ended. The head is written last.
    /// Where the source gives fewer or more items than declared, what was
    /// written is released and nothing is built.
    pub fn from_iter<I>(head: Head, declared: usize, items: I) -> (r: Result<Self, BuildError>) where
        I: Iterator<Item = SliceItem>,

        ensures
            r is Err && r->Err_0 is Oversize <==> !thin_fits::<Head, SliceItem>(declared as int),
            items.obeys_prophetic_iter_laws() ==> match r {
                Ok(this) => {
                    &&& items.remaining().len() == declared
                    &&& this@.head == head
                    &&& this@.tail == items.remaining()
                },
                Err(BuildError::Oversize) => true,
                Err(BuildError::OverReported) => items.remaining().len() < declared,
                Err(BuildError::UnderReported) => items.remaining().len() > declared,
            },
    {
        let mut source = items;
        let ghost all = items.remaining();
        let ghost obeys = items.obeys_prophetic_iter_laws();
        let mut this = match InProgress::<Head, SliceItem>::new(declared) {
            Ok(this) => this,
            Err(_) => {
                return Err(BuildError::Oversize);
            },
        };
        let mut taken: usize = 0;
        while taken < declared
            invariant
                taken <= declared,
                thin_fits::<Head, SliceItem>(declared as int),
                this.len() == declared,
                this.written().len() == taken,
                all == items.remaining(),
                obeys == items.obeys_prophetic_iter_laws(),
                obeys == source.obeys_prophetic_iter_laws(),
                obeys ==> {
                    &&& taken <= all.len()
                    &&& source.remaining() == all.skip(taken as int)
                    &&& this.written() == all.take(taken as int)
                },
            decreases declared - taken,
        {
            match source.next() {
                Some(item) => {
                    this.push(item);
                    taken += 1;
                },
                None => {
                    assert(obeys ==> all.skip(taken as int).len() == all.len() - taken);
                    return Err(BuildError::OverReported);
                },
            }
        }
        match source.next() {
            Some(_) => Err(BuildError::UnderReported),
            None => {
                assert(obeys ==> all.take(declared as int) == all);
                Ok(ThinBox { raw: Box::new(this.finish(head)) })
            },
        }
    }

    /// A handle to a new composite with the given head and the given items as its tail.
    ///
    /// The items are written in their order, and the head behind them. Fails
    /// exactly when a block for that many items would be larger than
    /// `isize::MAX` bytes.
    pub fn new(head: Head, slice: Vec<SliceItem>) -> (r: Result<Self, LayoutErr>)
        ensures
            r is Ok <==> thin_fits::<Head, SliceItem>(slice.len() as int),
            r matches Ok(this) ==> this@.head == head && this@.tail == slice@,
    {
        let len = slice.len();
        let items = slice.into_iter();
        match Self::from_iter(head, len, items) {
            Ok(this) => Ok(this),
            Err(BuildError::Oversize) => Err(layout_err()),
            Err(_) => unreached(),
        }
    }

    /// A handle to a new composite whose head is computed from the items of its tail.
    ///
    /// The head is computed from the items before they are written. Fails
    /// exactly when a block for that many items would be larger than
    /// `isize::MAX` bytes; the head is computed even then.
    pub fn new_with<F>(slice: Vec<SliceItem>, head: F) -> (r: Result<Self, LayoutErr>) where
        F: FnOnce(&[SliceItem]) -> Head,

        requires
            forall|items: &[SliceItem]| items@ == slice@ ==> call_requires(head, (items,)),
        ensures
            r is Ok <==> thin_fits::<Head, SliceItem>(slice.len() as int),
            r matches Ok(this) ==> {
                &&& this@.tail == slice@
                &&& exists|items: &[SliceItem]|
                    items@ == slice@ && call_ensures(head, (items,), this@.head)
            },
    {
        let head = head(slice.as_slice());
        Self::new(head, slice)
    }

    /// Takes the composite apart into its head and the items of its tail,
    /// and gives up the block.
    pub fn into_parts(self) -> (parts: (Head, Vec<SliceItem>))
        ensures
            parts.0 == self@.head,
            parts.1@ == self@.tail,
    {
        let data: ThinData<Head, SliceItem> = *self.raw;
        data.into_parts()
    }

    /// Puts a new head in place and hands out the one that was there.
    pub fn replace_head(&mut self, head: Head) -> (previous: Head)
        ensures
            previous == old(self)@.head,
            final(self)@.head == head,
            final(self)@.tail == old(self)@.tail,
    {
        self.raw.replace_head(head)
    }

    /// Puts a new item in place at `index` and hands out the one that was
    /// there. The number of items stays.
    pub fn replace_item(&mut self, index: usize, item: SliceItem) -> (previous: SliceItem)
        requires
            index < old(self)@.tail.len(),
        ensures
            previous == old(self)@.tail[index as int],
            final(self)@.tail == old(self)@.tail.update(index as int, item),
            final(self)@.head == old(self)@.head,
    {
        self.raw.replace_item(index, item)
    }

    /// The number of items in the tail.
    pub fn len(&self) -> (n: usize)
        ensures
            n == self@.tail.len(),
            thin_fits::<Head, SliceItem>(n as int),
    {
        self.raw.len()
    }

    /// The head.
    pub fn head(&self) -> (head: &Head)
        ensures
            *head == self@.head,
    {
        self.raw.head()
    }

    /// The items of the tail.
    pub fn slice(&self) -> (slice: &[SliceItem])
        ensures
            slice@ == self@.tail,
    {
        self.raw.slice()
    }
}

impl<Head, SliceItem> ThinBox<Head, SliceItem> {
    /// A handle to a new composite that holds a copy of the head and a copy
    /// of each item, in the same order, where making a copy may fail.
    ///
    /// The head is copied first, then the items one by one into a block of
    /// their own. At the first copy that fails, what has been copied so far
    /// is released and the failure is handed on. The composite behind
    /// `self` is only read.
    pub fn try_clone_with<E, FH, FI>(&self, copy_head: FH, copy_item: FI) -> (r: Result<Self, E>) where
        FH: FnOnce(&Head) -> Result<Head, E>,
        FI: Fn(&SliceItem) -> Result<SliceItem, E>,

        requires
            call_requires(copy_head, (&self@.head,)),
            forall|i: int| 0 <= i < self@.tail.len() ==> call_requires(copy_item, (&self@.tail[i],)),
        ensures
            match r {
                Ok(res) => {
                    &&& call_ensures(copy_head, (&self@.head,), Ok(res@.head))
                    &&& res@.tail.len() == self@.tail.len()
                    &&& forall|i: int|
                        0 <= i < self@.tail.len() ==> call_ensures(
                            copy_item,
                            (&self@.tail[i],),
                            Ok(#[trigger] res@.tail[i]),
                        )
                },
                Err(e) => {
                    ||| call_ensures(copy_head, (&self@.head,), Err(e))
                    ||| exists|i: int|
                        0 <= i < self@.tail.len() && call_ensures(
                            copy_item,
                            (&#[trigger] self@.tail[i],),
                            Err(e),
                        )
                },
            },
    {
        let len = self.len();
        let head = match copy_head(self.head()) {
            Ok(head) => head,
            Err(e) => {
                return Err(e);
            },
        };
        let mut this = match InProgress::<Head, SliceItem>::new(len) {
            Ok(this) => this,
            Err(_) => unreached(),
        };
        let items = self.slice();
        let mut index: usize = 0;
        while index < len
            invariant
                index <= len,
                len == items@.len(),
                items@ == self@.tail,
                this.len() == len,
                this.written().len() == index,
                forall|i: int| 0 <= i < len ==> call_requires(copy_item, (&items@[i],)),
                forall|i: int|
                    0 <= i < index ==> call_ensures(
                        copy_item,
                        (&items@[i],),
                        Ok(#[trigger] this.written()[i]),
                    ),
            decreases len - index,
        {
            match copy_item(&items[index]) {
                Ok(item) => {
                    this.push(item);
                },
                Err(e) => {
                    return Err(e);
                },
            }
            index += 1;
        }
        Ok(ThinBox { raw: Box::new(this.finish(head)) })
    }
}

impl<Head: Clone, SliceItem: Clone> Clone for ThinBox<Head, SliceItem> {
    /// A handle to a new composite that holds a clone of the head and a
    /// clone of each item, in the same order.
    ///
    /// The head is cloned first, then the items one by one into a block of
    /// their own. The composite behind `self` is only read.
    fn clone(&self) -> (res: Self)
        ensures
            cloned(self@.head, res@.head),
            res@.tail.len() == self@.tail.len(),
            forall|i: int| 0 <= i < self@.tail.len() ==> cloned(self@.tail[i], #[trigger] res@.tail[i]),
    {
        let clone_head = |head: &Head| -> (r: Result<Head, ()>)
            ensures
                r matches Ok(copy) && cloned(*head, copy),
            { Ok(head.clone()) };
        let clone_item = |item: &SliceItem| -> (r: Result<SliceItem, ()>)
            ensures
                r matches Ok(copy) && cloned(*item, copy),
            { Ok(item.clone()) };
        match self.try_clone_with(clone_head, clone_item) {
            Ok(res) => res,
            Err(_) => unreached(),
        }
    }
}

impl<Head, SliceItem> ThinBox<Head, SliceItem> {
    /// The thin handle to the composite behind a box.
    pub closed spec fn spec_from_fat(fat: Box<ThinData<Head, SliceItem>>) -> Self {
        ThinBox { raw: fat }
    }

    /// The box that holds the composite behind a thin handle.
    pub closed spec fn spec_into_fat(self) -> Box<ThinData<Head, SliceItem>> {
        self.raw
    }

    /// Going from a thin handle to the box and back gives the handle that
    /// was there, and so does going from a box to the thin handle and back:
    /// the composite, and the block that holds it, stay the same.
    pub proof fn lemma_fat_round_trip(thin: Self, fat: Box<ThinData<Head, SliceItem>>)
        ensures
            Self::spec_from_fat(thin.spec_into_fat()) == thin,
            Self::spec_from_fat(fat).spec_into_fat() == fat,
            thin.spec_into_fat()@ == thin@,
            Self::spec_from_fat(fat)@ == fat@,
    {
    }
}

impl<Head, SliceItem> FromSpecImpl<Box<ThinData<Head, SliceItem>>> for ThinBox<Head, SliceItem> {
    open spec fn obeys_from_spec() -> bool {
        true
    }

    open spec fn from_spec(v: Box<ThinData<Head, SliceItem>>) -> Self {
        Self::spec_from_fat(v)
    }
}

impl<Head, SliceItem> From<Box<ThinData<Head, SliceItem>>> for ThinBox<Head, SliceItem> {
    /// The thin handle to the composite behind a box. Nothing is copied.
    fn from(this: Box<ThinData<Head, SliceItem>>) -> (thin: Self)
        ensures
            thin@ == this@,
    {
        ThinBox { raw: this }
    }
}

impl<Head, SliceItem> FromSpecImpl<ThinBox<Head, SliceItem>> for Box<ThinData<Head, SliceItem>> {
    open spec fn obeys_from_spec() -> bool {
        true
    }

    open spec fn from_spec(v: ThinBox<Head, SliceItem>) -> Self {
        v.spec_into_fat()
    }
}

impl<Head, SliceItem> From<ThinBox<Head, SliceItem>> for Box<ThinData<Head, SliceItem>> {
    /// The box that holds the composite behind a thin handle. Nothing is copied.
    fn from(this: ThinBox<Head, SliceItem>) -> (fat: Self)
        ensures
            fat@ == this@,
    {
        this.raw
    }
}

impl<Head: PartialEq, SliceItem: PartialEq> PartialEqSpecImpl for ThinBox<Head, SliceItem> {
    open spec fn obeys_eq_spec() -> bool {
        Head::obeys_eq_spec() && SliceItem::obeys_eq_spec()
    }

    open spec fn eq_spec(&self, other: &Self) -> bool {
        composite_eq(self@, other@)
    }
}

impl<Head: PartialEq, SliceItem: PartialEq> PartialEq for ThinBox<Head, SliceItem> {
    /// Two handles are equal when the composites behind them have equal
    /// heads and tails that are equal item by item.
    fn eq(&self, other: &Self) -> (r: bool) {
        *self.raw == *other.raw
    }
}

} // verus!
