//! The outcome of a decoder, as the contracts speak of it.

use crate::error::{DecodeError, DecodeErrorView};
use vstd::prelude::*;

verus! {

/// What a decoder makes of a buffer from some position on: the value it reads
/// and the position after it, or the error it stops with.
pub type Decoded<T> = Result<(T, int), DecodeErrorView>;

/// The outcome of an executable decoder whose value is its own model, as a
/// [`Decoded`]: `end` is the position reached.
pub open spec fn plain<T>(r: Result<T, DecodeError>, end: int) -> Decoded<T> {
    match r {
        Ok(v) => Ok((v, end)),
        Err(e) => Err(e@),
    }
}

/// The outcome of an executable decoder as a [`Decoded`] over the view of
/// its value: `end` is the position reached.
pub open spec fn viewed<T: View>(r: Result<T, DecodeError>, end: int) -> Decoded<T::V> {
    match r {
        Ok(v) => Ok((v@, end)),
        Err(e) => Err(e@),
    }
}

/// The views of the items of a sequence, in order.
pub open spec fn views<T: View>(s: Seq<T>) -> Seq<T::V> {
    Seq::new(s.len(), |i: int| s[i]@)
}

/// The outcome of an executable decoder of a list as a [`Decoded`] over the
/// views of its items: `end` is the position reached.
pub open spec fn viewed_list<T: View>(r: Result<Vec<T>, DecodeError>, end: int) -> Decoded<
    Seq<T::V>,
> {
    match r {
        Ok(v) => Ok((views(v@), end)),
        Err(e) => Err(e@),
    }
}

} // verus!
