//! What a caller can choose about a decode.

use crate::error::{DecodeError, DecodeErrorView};
use vstd::prelude::*;

verus! {

/// The nesting limit of a decode that is given none.
pub const DEFAULT_MAX_DEPTH: usize = 64;

/// The choices open to the caller of a decode.
#[derive(Clone, Copy, Debug, PartialEq, Eq, Structural)]
pub struct DecodeOptions {
    /// What becomes of an attribute whose name no decoder is registered for:
    /// a permissive decode keeps its body as an opaque span of the declared
    /// length, a strict one fails with [`DecodeError::UnknownAttribute`].
    pub permissive: bool,
    /// How many levels of nesting a decode allows. A `Code` attribute, a
    /// `Record` attribute, an array element value and an annotation inside
    /// an element value each take one level for what they hold; where none
    /// is left, the decode fails with [`DecodeError::NestingTooDeep`].
    pub max_depth: usize,
}

impl DecodeOptions {
    /// A strict decode with the default nesting limit.
    pub open spec fn spec_new() -> Self {
        DecodeOptions { permissive: false, max_depth: DEFAULT_MAX_DEPTH }
    }

    /// A strict decode with the default nesting limit.
    #[verifier::when_used_as_spec(spec_new)]
    pub fn new() -> (options: Self)
        ensures
            options == Self::spec_new(),
    {
        DecodeOptions { permissive: false, max_depth: DEFAULT_MAX_DEPTH }
    }

    /// These options, but permissive or strict as `permissive` says.
    pub fn permissive(self, permissive: bool) -> (options: Self)
        ensures
            options == (DecodeOptions { permissive, max_depth: self.max_depth }),
    {
        DecodeOptions { permissive, max_depth: self.max_depth }
    }

    /// These options, but with the nesting limit `max_depth`.
    pub fn max_depth(self, max_depth: usize) -> (options: Self)
        ensures
            options == (DecodeOptions { permissive: self.permissive, max_depth }),
    {
        DecodeOptions { permissive: self.permissive, max_depth }
    }

    /// The nesting budget at the top of a decode: all of the limit is left.
    pub open spec fn spec_depth(self) -> Depth {
        Depth { limit: self.max_depth, left: self.max_depth }
    }

    /// The nesting budget at the top of a decode: all of the limit is left.
    #[verifier::when_used_as_spec(spec_depth)]
    pub fn depth(self) -> (depth: Depth)
        ensures
            depth == self.spec_depth(),
    {
        Depth { limit: self.max_depth, left: self.max_depth }
    }
}

/// A nesting budget: the limit a decode was given, and how many more levels
/// it may still go down.
#[derive(Clone, Copy, Debug, PartialEq, Eq, Structural)]
pub struct Depth {
    pub limit: usize,
    pub left: usize,
}

impl Depth {
    /// The budget one level further down, for a structure that starts at
    /// `offset`; with no level left, the nesting is too deep.
    pub open spec fn spec_descend(self, offset: int) -> Result<Depth, DecodeErrorView> {
        if self.left == 0 {
            Err(DecodeErrorView::NestingTooDeep { limit: self.limit as int, offset })
        } else {
            Ok(Depth { limit: self.limit, left: (self.left - 1) as usize })
        }
    }

    /// The budget one level further down, for a structure that starts at
    /// `offset`; with no level left, the nesting is too deep.
    pub fn descend(self, offset: usize) -> (r: Result<Depth, DecodeError>)
        ensures
            match r {
                Ok(inner) => self.spec_descend(
                    offset as int,
                ) == Ok::<Depth, DecodeErrorView>(inner),
                Err(e) => self.spec_descend(offset as int) == Err::<Depth, DecodeErrorView>(e@),
            },
    {
        if self.left == 0 {
            Err(DecodeError::NestingTooDeep { limit: self.limit, offset })
        } else {
            Ok(Depth { limit: self.limit, left: self.left - 1 })
        }
    }
}

} // verus!
