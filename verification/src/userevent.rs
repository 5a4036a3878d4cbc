//! What an application-defined event must be able to do.
use vstd::prelude::*;

verus! {

/// An event of the embedding application that travels between threads.
pub trait UserEvent: Clone + Send + 'static {

}

impl<T: Clone + Send + 'static> UserEvent for T {

}

} // verus!
