//! The shared thin handle, for use across threads.

use crate::boxed::ThinBox;
use crate::data::{composite_eq, thin_fits, Composite, ThinData};
use crate::layout::LayoutErr;
use std::sync::Arc;
use vstd::prelude::*;
use vstd::std_specs::cmp::{PartialEqSpec, PartialEqSpecImpl};
use vstd::std_specs::convert::FromSpecImpl;

verus! {

/// A thin handle that shares its composite with its clones, counting them atomically.
///
/// The count is kept by the `Arc` that the handle converts to and from; the
/// composite is released when the last handle to it is.
#[derive(Debug, Eq, Hash)]
pub struct ThinArc<Head, SliceItem> {
    raw: Arc<ThinData<Head, SliceItem>>,
}

impl<Head, SliceItem> View for ThinArc<Head, SliceItem> {
    type V = Composite<Head, SliceItem>;

    closed spec fn view(&self) -> Composite<Head, SliceItem> {
        self.raw@
    }
}

/// `Arc::clone`: one more pointer to the same allocation, so the value
/// behind the result is the value behind `this`. The count of the
/// allocation goes up by one, which no contract here speaks of.
#[verifier::external_body]
fn arc_clone<T>(this: &Arc<T>) -> (res: Arc<T>)
    ensures
        res == *this,
{
    Arc::clone(this)
}

impl<Head, SliceItem> ThinArc<Head, SliceItem> {
    /// A handle to a new shared composite with the given head and the given
    /// items as its tail; it is the only handle to it so far.
    ///
    /// Fails exactly when a block for that many items would be larger than
    /// `isize::MAX` bytes.
    pub fn new(head: Head, slice: Vec<SliceItem>) -> (r: Result<Self, LayoutErr>)
        ensures
            r is Ok <==> thin_fits::<Head, SliceItem>(slice.len() as int),
            r matches Ok(this) ==> this@.head == head && this@.tail == slice@,
    {
        let boxed: Box<ThinData<Head, SliceItem>> = match ThinBox::new(head, slice) {
            Ok(thin) => thin.into(),
            Err(e) => {
                return Err(e);
            },
        };
        Ok(ThinArc { raw: Arc::new(*boxed) })
    }

    /// A handle to a new shared composite whose head is computed from the
    /// items of its tail, before they are written.
    ///
    /// Fails exactly when a block for that many items would be larger than
    /// `isize::MAX` bytes; the head is computed even then.
    pub fn new_with<F>(slice: Vec<SliceItem>, head: F) -> (r: Result<Self, LayoutErr>) where
        F: FnOnce(&[SliceItem]) -> Head,

        requires
            forall|items: &[SliceItem]| items@ == slice@ ==> call_requires(head, (items,)),
        ensures
            r is Ok <==> thin_fits::<Head, SliceItem>(slice.len() as int),
            r matches Ok(this) ==> {
                &&& this@.tail == slice@
                &&& exists|items: &[SliceItem]|
                    items@ == slice@ && call_ensures(head, (items,), this@.head)
            },
    {
        let head = head(slice.as_slice());
        Self::new(head, slice)
    }

    /// The number of items in the tail.
    pub fn len(&self) -> (n: usize)
        ensures
            n == self@.tail.len(),
            thin_fits::<Head, SliceItem>(n as int),
    {
        self.raw.len()
    }

    /// The head.
    pub fn head(&self) -> (head: &Head)
        ensures
            *head == self@.head,
    {
        self.raw.head()
    }

    /// The items of the tail.
    pub fn slice(&self) -> (slice: &[SliceItem])
        ensures
            slice@ == self@.tail,
    {
        self.raw.slice()
    }

    /// The thin handle to the composite behind an `Arc`.
    pub closed spec fn spec_from_fat(fat: Arc<ThinData<Head, SliceItem>>) -> Self {
        ThinArc { raw: fat }
    }

    /// The `Arc` that holds the composite behind a thin handle.
    pub closed spec fn spec_into_fat(self) -> Arc<ThinData<Head, SliceItem>> {
        self.raw
    }

    /// Going from a thin handle to the `Arc` and back gives the handle that
    /// was there, and so does going from an `Arc` to the thin handle and back:
    /// the composite, and the block that holds it, stay the same.
    pub proof fn lemma_fat_round_trip(thin: Self, fat: Arc<ThinData<Head, SliceItem>>)
        ensures
            Self::spec_from_fat(thin.spec_into_fat()) == thin,
            Self::spec_from_fat(fat).spec_into_fat() == fat,
            thin.spec_into_fat()@ == thin@,
            Self::spec_from_fat(fat)@ == fat@,
    {
    }
}

impl<Head, SliceItem> Clone for ThinArc<Head, SliceItem> {
    /// One more handle to the same composite. No item is copied.
    fn clone(&self) -> (res: Self)
        ensures
            res == *self,
            res@ == self@,
    {
        ThinArc { raw: arc_clone(&self.raw) }
    }
}

impl<Head, SliceItem> FromSpecImpl<Arc<ThinData<Head, SliceItem>>> for ThinArc<Head, SliceItem> {
    open spec fn obeys_from_spec() -> bool {
        true
    }

    open spec fn from_spec(v: Arc<ThinData<Head, SliceItem>>) -> Self {
        Self::spec_from_fat(v)
    }
}

impl<Head, SliceItem> From<Arc<ThinData<Head, SliceItem>>> for ThinArc<Head, SliceItem> {
    /// The thin handle to the composite behind an `Arc`. Nothing is copied,
    /// and the count stays.
    fn from(this: Arc<ThinData<Head, SliceItem>>) -> (thin: Self)
        ensures
            thin@ == this@,
    {
        ThinArc { raw: this }
    }
}

impl<Head, SliceItem> FromSpecImpl<ThinArc<Head, SliceItem>> for Arc<ThinData<Head, SliceItem>> {
    open spec fn obeys_from_spec() -> bool {
        true
    }

    open spec fn from_spec(v: ThinArc<Head, SliceItem>) -> Self {
        v.spec_into_fat()
    }
}

impl<Head, SliceItem> From<ThinArc<Head, SliceItem>> for Arc<ThinData<Head, SliceItem>> {
    /// The `Arc` that holds the composite behind a thin handle. Nothing is
    /// copied, and the count stays.
    fn from(this: ThinArc<Head, SliceItem>) -> (fat: Self)
        ensures
            fat@ == this@,
    {
        this.raw
    }
}

impl<Head: PartialEq, SliceItem: PartialEq> PartialEqSpecImpl for ThinArc<Head, SliceItem> {
    open spec fn obeys_eq_spec() -> bool {
        Head::obeys_eq_spec() && SliceItem::obeys_eq_spec()
    }

    open spec fn eq_spec(&self, other: &Self) -> bool {
        composite_eq(self@, other@)
    }
}

impl<Head: PartialEq, SliceItem: PartialEq> PartialEq for ThinArc<Head, SliceItem> {
    /// Two handles are equal when the composites behind them have equal
    /// heads and tails that are equal item by item.
    fn eq(&self, other: &Self) -> (r: bool) {
        *self.raw == *other.raw
    }
}

} // verus!
