//! Keeps the address marker traits closed: only this crate can name `Sealed`
//! as a supertrait, so only this crate's marker types implement them.

use vstd::prelude::*;

verus! {

pub trait Sealed {
}

} // verus!
