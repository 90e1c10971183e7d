//! A verified model of a templating engine's partial-splicing tag: the
//! argument grammar that turns tag tokens into a renderable instruction, and
//! the render-time protocol that resolves a named partial, exposes explicit
//! bindings to it under a reserved name, and attributes every failure to the
//! tag occurrence that caused it.

use vstd::prelude::*;

pub mod kstr;
pub mod laws;
pub mod parse;
pub mod render;
pub mod runtime;
pub mod value;

verus! {

/// The tag component itself: stateless, registered once with the host engine.
#[derive(Copy, Clone, Debug, Default)]
pub struct IncludeTag;

impl IncludeTag {
    pub fn new() -> (r: Self)
        ensures
            r == (IncludeTag {  }),
    {
        IncludeTag
    }

    /// The name under which the engine registers this tag; it is also the
    /// reserved name the binding object is exposed under.
    pub fn tag(&self) -> (r: &'static str)
        ensures
            r@ == crate::runtime::spec_reserved(),
    {
        "include"
    }
}

} // verus!
