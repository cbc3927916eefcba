use vstd::prelude::*;

verus! {

/// Turns a vector into a boxed slice with the same items.
#[verifier::external_body]
fn vec_into_boxed_slice<T>(items: Vec<T>) -> (boxed: Box<[T]>)
    ensures
        boxed@ == items@,
{
    items.into_boxed_slice()
}

/// A slice that holds at most `LIMIT` items.
pub struct LimitedSlice<T, const LIMIT: usize> {
    items: Box<[T]>,
}

/// The error of building a [`LimitedSlice`] from more than `LIMIT` items.
pub struct ExceededLimitError {
    pub actual_len: usize,
}

impl<T, const LIMIT: usize> LimitedSlice<T, LIMIT> {
    #[verifier::type_invariant]
    spec fn within_limit(self) -> bool {
        self.items@.len() <= LIMIT
    }

    /// The items, in order.
    pub closed spec fn items(self) -> Seq<T> {
        self.items@
    }

    pub fn into_vec(self) -> (items: Vec<T>)
        ensures
            items@ == self.items(),
            items@.len() <= LIMIT,
    {
        proof { use_type_invariant(&self); }
        self.items.into_vec()
    }

    /// A slice of at most `LIMIT` items holding the items of `value`; there is
    /// none where `value` holds more.
    pub fn try_from_vec(value: Vec<T>) -> (res: Result<Self, ExceededLimitError>)
        ensures
            value@.len() <= LIMIT <==> res is Ok,
            res matches Ok(s) ==> s.items() == value@,
            res matches Err(e) ==> e.actual_len == value@.len(),
    {
        if value.len() > LIMIT {
            Err(ExceededLimitError { actual_len: value.len() })
        } else {
            let boxed = vec_into_boxed_slice(value);
            Ok(LimitedSlice { items: boxed })
        }
    }

    /// As `try_from_vec`, for a boxed slice.
    pub fn try_from_boxed_slice(value: Box<[T]>) -> (res: Result<Self, ExceededLimitError>)
        ensures
            value@.len() <= LIMIT <==> res is Ok,
            res matches Ok(s) ==> s.items() == value@,
            res matches Err(e) ==> e.actual_len == value@.len(),
    {
        let len = value.len();
        if len > LIMIT {
            Err(ExceededLimitError { actual_len: len })
        } else {
            Ok(LimitedSlice { items: value })
        }
    }

    pub fn into_boxed_slice(self) -> (items: Box<[T]>)
        ensures
            items@ == self.items(),
            items@.len() <= LIMIT,
    {
        proof { use_type_invariant(&self); }
        self.items
    }

    pub fn as_slice(&self) -> (items: &[T])
        ensures
            items@ == self.items(),
    {
        &self.items
    }

    pub fn len(&self) -> (n: usize)
        ensures
            n == self.items().len(),
            n <= LIMIT,
    {
        proof { use_type_invariant(self); }
        self.items.len()
    }
}

impl<T: Clone, const LIMIT: usize> Clone for LimitedSlice<T, LIMIT> {
    /// A slice of clones of the items, in order.
    fn clone(&self) -> (copy: Self)
        ensures
            copy.items().len() == self.items().len(),
            forall|i: int| 0 <= i < self.items().len() ==> cloned::<T>(self.items()[i], #[trigger] copy.items()[i]),
    {
        proof { use_type_invariant(self); }
        let items: &[T] = &self.items;
        let mut copies: Vec<T> = Vec::new();
        let mut i: usize = 0;
        while i < items.len()
            invariant
                items@ == self.items(),
                i <= items@.len(),
                copies@.len() == i,
                forall|j: int| 0 <= j < i ==> cloned::<T>(items@[j], #[trigger] copies@[j]),
            decreases items@.len() - i,
        {
            copies.push(items[i].clone());
            i = i + 1;
        }
        LimitedSlice { items: vec_into_boxed_slice(copies) }
    }
}

impl<T, const LIMIT: usize> AsRef<[T]> for LimitedSlice<T, LIMIT> {
    fn as_ref(&self) -> (items: &[T])
        ensures
            items@ == self.items(),
    {
        self.as_slice()
    }
}

} // verus!
