//! The shared thin handle, for use within one thread.

use crate::boxed::ThinBox;
use crate::data::{composite_eq, thin_fits, Composite, ThinData};
use crate::layout::LayoutErr;
use std::rc::Rc;
use vstd::prelude::*;
use vstd::std_specs::cmp::{PartialEqSpec, PartialEqSpecImpl};
use vstd::std_specs::convert::FromSpecImpl;

verus! {

/// A thin handle that shares its composite with its clones, counting them.
///
/// The count is kept by the `Rc` that the handle converts to and from; the
/// composite is released when the last handle to it is.
#[derive(Debug, Eq, Hash)]
pub struct ThinRc<Head, SliceItem> {
    raw: Rc<ThinData<Head, SliceItem>>,
}

impl<Head, SliceItem> View for ThinRc<Head, SliceItem> {
    type V = Composite<Head, SliceItem>;

    closed spec fn view(&self) -> Composite<Head, SliceItem> {
        self.raw@
    }
}

/// `Rc::clone`: one more pointer to the same allocation, so the value
/// behind the result is the value behind `this`. The count of the
/// allocation goes up by one, which no contract here speaks of.
#[verifier::external_body]
fn rc_clone<T>(this: &Rc<T>) -> (res: Rc<T>)
    ensures
        res == *this,
{
    Rc::clone(this)
}

impl<Head, SliceItem> ThinRc<Head, SliceItem> {
    /// A handle to a new shared composite with the given head and the given
    /// items as its tail; it is the only handle to it so far.
    ///
    /// Fails exactly when a block for that many items would be larger than
    /// `isize::MAX` bytes.
    pub fn new(head: Head, slice: Vec<SliceItem>) -> (r: Result<Self, LayoutErr>)
        ensures
            r is Ok <==> thin_fits::<Head, SliceItem>(slice.len() as int),
            r matches Ok(this) ==> this@.head == head && this@.tail == slice@,
    {
        let boxed: Box<ThinData<Head, SliceItem>> = match ThinBox::new(head, slice) {
            Ok(thin) => thin.into(),
            Err(e) => {
                return Err(e);
            },
        };
        Ok(ThinRc { raw: Rc::new(*boxed) })
    }

    /// A handle to a new shared composite whose head is computed from the
    /// items of its tail, before they are written.
    ///
    /// Fails exactly when a block for that many items would be larger than
    /// `isize::MAX` bytes; the head is computed even then.
    pub fn new_with<F>(slice: Vec<SliceItem>, head: F) -> (r: Result<Self, LayoutErr>) where
        F: FnOnce(&[SliceItem]) -> Head,

        requires
            forall|items: &[SliceItem]| items@ == slice@ ==> call_requires(head, (items,)),
        ensures
            r is Ok <==> thin_fits::<Head, SliceItem>(slice.len() as int),
            r matches Ok(this) ==> {
                &&& this@.tail == slice@
                &&& exists|items: &[SliceItem]|
                    items@ == slice@ && call_ensures(head, (items,), this@.head)
            },
    {
        let head = head(slice.as_slice());
        Self::new(head, slice)
    }

    /// The number of items in the tail.
    pub fn len(&self) -> (n: usize)
        ensures
            n == self@.tail.len(),
            thin_fits::<Head, SliceItem>(n as int),
    {
        self.raw.len()
    }

    /// The head.
    pub fn head(&self) -> (head: &Head)
        ensures
            *head == self@.head,
    {
        self.raw.head()
    }

    /// The items of the tail.
    pub fn slice(&self) -> (slice: &[SliceItem])
        ensures
            slice@ == self@.tail,
    {
        self.raw.slice()
    }

    /// The thin handle to the composite behind an `Rc`.
    pub closed spec fn spec_from_fat(fat: Rc<ThinData<Head, SliceItem>>) -> Self {
        ThinRc { raw: fat }
    }

    /// The `Rc` that holds the composite behind a thin handle.
    pub closed spec fn spec_into_fat(self) -> Rc<ThinData<Head, SliceItem>> {
        self.raw
    }

    /// Going from a thin handle to the `Rc` and back gives the handle that
    /// was there, and so does going from an `Rc` to the thin handle and back:
    /// the composite, and the block that holds it, stay the same.
    pub proof fn lemma_fat_round_trip(thin: Self, fat: Rc<ThinData<Head, SliceItem>>)
        ensures
            Self::spec_from_fat(thin.spec_into_fat()) == thin,
            Self::spec_from_fat(fat).spec_into_fat() == fat,
            thin.spec_into_fat()@ == thin@,
            Self::spec_from_fat(fat)@ == fat@,
    {
    }
}

impl<Head, SliceItem> Clone for ThinRc<Head, SliceItem> {
    /// One more handle to the same composite. No item is copied.
    fn clone(&self) -> (res: Self)
        ensures
            res == *self,
            res@ == self@,
    {
        ThinRc { raw: rc_clone(&self.raw) }
    }
}

impl<Head, SliceItem> FromSpecImpl<Rc<ThinData<Head, SliceItem>>> for ThinRc<Head, SliceItem> {
    open spec fn obeys_from_spec() -> bool {
        true
    }

    open spec fn from_spec(v: Rc<ThinData<Head, SliceItem>>) -> Self {
        Self::spec_from_fat(v)
    }
}

impl<Head, SliceItem> From<Rc<ThinData<Head, SliceItem>>> for ThinRc<Head, SliceItem> {
    /// The thin handle to the composite behind an `Rc`. Nothing is copied,
    /// and the count stays.
    fn from(this: Rc<ThinData<Head, SliceItem>>) -> (thin: Self)
        ensures
            thin@ == this@,
    {
        ThinRc { raw: this }
    }
}

impl<Head, SliceItem> FromSpecImpl<ThinRc<Head, SliceItem>> for Rc<ThinData<Head, SliceItem>> {
    open spec fn obeys_from_spec() -> bool {
        true
    }

    open spec fn from_spec(v: ThinRc<Head, SliceItem>) -> Self {
        v.spec_into_fat()
    }
}

impl<Head, SliceItem> From<ThinRc<Head, SliceItem>> for Rc<ThinData<Head, SliceItem>> {
    /// The `Rc` that holds the composite behind a thin handle. Nothing is
    /// copied, and the count stays.
    fn from(this: ThinRc<Head, SliceItem>) -> (fat: Self)
        ensures
            fat@ == this@,
    {
        this.raw
    }
}

impl<Head: PartialEq, SliceItem: PartialEq> PartialEqSpecImpl for ThinRc<Head, SliceItem> {
    open spec fn obeys_eq_spec() -> bool {
        Head::obeys_eq_spec() && SliceItem::obeys_eq_spec()
    }

    open spec fn eq_spec(&self, other: &Self) -> bool {
        composite_eq(self@, other@)
    }
}

impl<Head: PartialEq, SliceItem: PartialEq> PartialEq for ThinRc<Head, SliceItem> {
    /// Two handles are equal when the composites behind them have equal
    /// heads and tails that are equal item by item.
    fn eq(&self, other: &Self) -> (r: bool) {
        *self.raw == *other.raw
    }
}

} // verus!
