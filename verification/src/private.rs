//! Keeps the set of shader stages closed.

use vstd::prelude::*;

verus! {

/// Implemented by the five shader handles and by nothing else: the module is
/// private, so no other crate can name this trait.
pub trait Sealed {
}

} // verus!
