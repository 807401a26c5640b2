//! Thin handles that borrow a composite without owning it.

use crate::data::{composite_eq, thin_fits, Composite, ThinData};
use vstd::prelude::*;
use vstd::std_specs::cmp::{PartialEqSpec, PartialEqSpecImpl};
use vstd::std_specs::convert::FromSpecImpl;

verus! {

/// A thin handle that borrows a composite for reading.
#[derive(Debug, Eq, Hash)]
pub struct ThinRef<'a, Head, SliceItem> {
    raw: &'a ThinData<Head, SliceItem>,
}

impl<'a, Head, SliceItem> View for ThinRef<'a, Head, SliceItem> {
    type V = Composite<Head, SliceItem>;

    closed spec fn view(&self) -> Composite<Head, SliceItem> {
        self.raw@
    }
}

impl<'a, Head, SliceItem> ThinRef<'a, Head, SliceItem> {
    /// The number of items in the tail.
    pub fn len(&self) -> (n: usize)
        ensures
            n == self@.tail.len(),
            thin_fits::<Head, SliceItem>(n as int),
    {
        self.raw.len()
    }

    /// The head.
    pub fn head(&self) -> (head: &'a Head)
        ensures
            *head == self@.head,
    {
        self.raw.head()
    }

    /// The items of the tail.
    pub fn slice(&self) -> (slice: &'a [SliceItem])
        ensures
            slice@ == self@.tail,
    {
        self.raw.slice()
    }

    /// The thin handle for a borrowed composite.
    pub closed spec fn spec_from_fat(fat: &'a ThinData<Head, SliceItem>) -> Self {
        ThinRef { raw: fat }
    }

    /// The borrowed composite behind a thin handle.
    pub closed spec fn spec_into_fat(self) -> &'a ThinData<Head, SliceItem> {
        self.raw
    }

    /// Going from a thin handle to the reference and back gives the handle
    /// that was there, and so does going from a reference to the thin
    /// handle and back.
    pub proof fn lemma_fat_round_trip(thin: Self, fat: &'a ThinData<Head, SliceItem>)
        ensures
            Self::spec_from_fat(thin.spec_into_fat()) == thin,
            Self::spec_from_fat(fat).spec_into_fat() == fat,
            thin.spec_into_fat()@ == thin@,
            Self::spec_from_fat(fat)@ == fat@,
    {
    }
}

impl<'a, Head, SliceItem> Clone for ThinRef<'a, Head, SliceItem> {
    /// One more handle that borrows the same composite.
    fn clone(&self) -> (res: Self)
        ensures
            res == *self,
    {
        ThinRef { raw: self.raw }
    }
}

impl<'a, Head, SliceItem> Copy for ThinRef<'a, Head, SliceItem> {

}

impl<'a, Head, SliceItem> FromSpecImpl<&'a ThinData<Head, SliceItem>> for ThinRef<'a, Head, SliceItem> {
    open spec fn obeys_from_spec() -> bool {
        true
    }

    open spec fn from_spec(v: &'a ThinData<Head, SliceItem>) -> Self {
        Self::spec_from_fat(v)
    }
}

impl<'a, Head, SliceItem> From<&'a ThinData<Head, SliceItem>> for ThinRef<'a, Head, SliceItem> {
    /// The thin handle for a borrowed composite.
    fn from(this: &'a ThinData<Head, SliceItem>) -> (thin: Self)
        ensures
            thin@ == this@,
    {
        ThinRef { raw: this }
    }
}

impl<'a, Head, SliceItem> FromSpecImpl<ThinRef<'a, Head, SliceItem>> for &'a ThinData<Head, SliceItem> {
    open spec fn obeys_from_spec() -> bool {
        true
    }

    open spec fn from_spec(v: ThinRef<'a, Head, SliceItem>) -> Self {
        v.spec_into_fat()
    }
}

impl<'a, Head, SliceItem> From<ThinRef<'a, Head, SliceItem>> for &'a ThinData<Head, SliceItem> {
    /// The borrowed composite behind a thin handle.
    fn from(this: ThinRef<'a, Head, SliceItem>) -> (fat: Self)
        ensures
            fat@ == this@,
    {
        this.raw
    }
}

impl<'a, Head: PartialEq, SliceItem: PartialEq> PartialEqSpecImpl for ThinRef<'a, Head, SliceItem> {
    open spec fn obeys_eq_spec() -> bool {
        Head::obeys_eq_spec() && SliceItem::obeys_eq_spec()
    }

    open spec fn eq_spec(&self, other: &Self) -> bool {
        composite_eq(self@, other@)
    }
}

impl<'a, Head: PartialEq, SliceItem: PartialEq> PartialEq for ThinRef<'a, Head, SliceItem> {
    /// Two handles are equal when the composites behind them have equal
    /// heads and tails that are equal item by item.
    fn eq(&self, other: &Self) -> (r: bool) {
        *self.raw == *other.raw
    }
}

/// A thin handle that borrows a composite for changing its head and items.
#[derive(Debug, PartialEq, Eq, Hash)]
pub struct ThinRefMut<'a, Head, SliceItem> {
    raw: &'a mut ThinData<Head, SliceItem>,
}

impl<'a, Head, SliceItem> View for ThinRefMut<'a, Head, SliceItem> {
    type V = Composite<Head, SliceItem>;

    closed spec fn view(&self) -> Composite<Head, SliceItem> {
        self.raw@
    }
}

impl<'a, Head, SliceItem> ThinRefMut<'a, Head, SliceItem> {
    /// The borrowed composite behind a thin handle.
    pub closed spec fn spec_into_fat(self) -> &'a mut ThinData<Head, SliceItem> {
        self.raw
    }

    /// Once a handle is no longer used, the composite holds what the handle
    /// last showed.
    pub proof fn lemma_resolved(self)
        requires
            has_resolved(self),
        ensures
            final(self.spec_into_fat())@ == self@,
    {
    }

    /// The number of items in the tail.
    pub fn len(&self) -> (n: usize)
        ensures
            n == self@.tail.len(),
            thin_fits::<Head, SliceItem>(n as int),
    {
        self.raw.len()
    }

    /// The head.
    pub fn head(&self) -> (head: &Head)
        ensures
            *head == self@.head,
    {
        self.raw.head()
    }

    /// The items of the tail.
    pub fn slice(&self) -> (slice: &[SliceItem])
        ensures
            slice@ == self@.tail,
    {
        self.raw.slice()
    }

    /// Puts a new head in place and hands out the one that was there.
    pub fn replace_head(&mut self, head: Head) -> (previous: Head)
        ensures
            previous == old(self)@.head,
            final(self)@.head == head,
            final(self)@.tail == old(self)@.tail,
            final(final(self).spec_into_fat())@ == final(old(self).spec_into_fat())@,
    {
        self.raw.replace_head(head)
    }

    /// Puts a new item in place at `index` and hands out the one that was
    /// there. The number of items stays.
    pub fn replace_item(&mut self, index: usize, item: SliceItem) -> (previous: SliceItem)
        requires
            index < old(self)@.tail.len(),
        ensures
            previous == old(self)@.tail[index as int],
            final(self)@.tail == old(self)@.tail.update(index as int, item),
            final(self)@.head == old(self)@.head,
            final(final(self).spec_into_fat())@ == final(old(self).spec_into_fat())@,
    {
        self.raw.replace_item(index, item)
    }
}

impl<'a, Head, SliceItem> FromSpecImpl<&'a mut ThinData<Head, SliceItem>> for ThinRefMut<'a, Head, SliceItem> {
    open spec fn obeys_from_spec() -> bool {
        false
    }

    open spec fn from_spec(v: &'a mut ThinData<Head, SliceItem>) -> Self {
        arbitrary()
    }
}

impl<'a, Head, SliceItem> From<&'a mut ThinData<Head, SliceItem>> for ThinRefMut<'a, Head, SliceItem> {
    /// The thin handle for a composite borrowed for changing. What is
    /// changed through the handle is changed in the composite.
    fn from(this: &'a mut ThinData<Head, SliceItem>) -> (thin: Self)
        ensures
            thin@ == old(this)@,
            final(thin.spec_into_fat())@ == final(this)@,
    {
        ThinRefMut { raw: this }
    }
}

impl<'a, Head, SliceItem> FromSpecImpl<ThinRefMut<'a, Head, SliceItem>> for &'a mut ThinData<Head, SliceItem> {
    open spec fn obeys_from_spec() -> bool {
        false
    }

    open spec fn from_spec(v: ThinRefMut<'a, Head, SliceItem>) -> Self {
        arbitrary()
    }
}

impl<'a, Head, SliceItem> From<ThinRefMut<'a, Head, SliceItem>> for &'a mut ThinData<Head, SliceItem> {
    /// The borrowed composite behind a thin handle. What is changed through
    /// the reference is changed in the composite.
    fn from(this: ThinRefMut<'a, Head, SliceItem>) -> (fat: Self)
        ensures
            fat@ == this@,
            final(fat)@ == final(this.spec_into_fat())@,
    {
        this.raw
    }
}

} // verus!
