//! A plain sequence behind a thin handle: the head is the number of items.

use crate::boxed::ThinBox;
use crate::data::thin_fits;
use crate::layout::LayoutErr;
use vstd::prelude::*;

verus! {

/// A sequence of items behind a thin handle, whose head holds their number.
///
/// The head is computed from the items when the sequence is made, and from
/// then on it always equals the number of items in the tail.
#[derive(Debug, PartialEq, Eq, Hash)]
pub struct ThinSlice<T> {
    raw: ThinBox<usize, T>,
}

impl<T> View for ThinSlice<T> {
    type V = Seq<T>;

    closed spec fn view(&self) -> Seq<T> {
        self.raw@.tail
    }
}

impl<T> ThinSlice<T> {
    #[verifier::type_invariant]
    spec fn well_formed(&self) -> bool {
        self.raw@.head == self.raw@.tail.len()
    }

    /// The number of items that a head stands for: the head itself.
    pub fn get_length(head: &usize) -> (n: usize)
        ensures
            n == *head,
    {
        *head
    }

    /// A thin sequence of the given items, in their order.
    ///
    /// Fails exactly when a block for that many items would be larger than
    /// `isize::MAX` bytes.
    pub fn new(items: Vec<T>) -> (r: Result<Self, LayoutErr>)
        ensures
            r is Ok <==> thin_fits::<usize, T>(items.len() as int),
            r matches Ok(this) ==> this@ == items@,
    {
        let count = |items: &[T]| -> (n: usize)
            ensures
                n == items@.len(),
            { items.len() };
        match ThinBox::new_with(items, count) {
            Ok(raw) => Ok(ThinSlice { raw }),
            Err(e) => Err(e),
        }
    }

    /// The number of items, as the head has it.
    pub fn len(&self) -> (n: usize)
        ensures
            n == self@.len(),
    {
        proof {
            use_type_invariant(self);
        }
        Self::get_length(self.raw.head())
    }

    /// The items.
    pub fn as_slice(&self) -> (items: &[T])
        ensures
            items@ == self@,
    {
        self.raw.slice()
    }
}

} // verus!
