//! A minimal intermediate-representation container: a named module holding
//! an ordered list of function placeholders, with names interned in a
//! string pool. Plain data only; no behavior lives here yet.

use vstd::prelude::*;

verus! {

/// A deduplicated table of interned strings; a [`StringRef`] is a stable
/// index into it.
pub type StringPool = Vec<String>;

/// A stable handle into a [`StringPool`].
#[derive(Clone, Debug)]
pub struct StringRef(pub u32);

/// A function placeholder. It carries no fields yet; signature and
/// instruction data are expected to be added later.
#[derive(Clone, Debug)]
pub struct Function {}

/// A module: a name (as a string-pool handle) and its functions in order.
#[derive(Clone, Debug)]
pub struct Module {
    pub name: StringRef,
    pub functions: Vec<Function>,
}

} // verus!
