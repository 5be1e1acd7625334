//! The liveness probe of a subsystem.

use crate::error::Result;
use vstd::prelude::*;

verus! {

/// A subsystem that can be asked whether it is there.
pub trait Ping {
    /// Answers `Ok` when the subsystem is reachable.
    fn ping(&self) -> Result<()>;
}

} // verus!
