//! The diagnostic log of a subsystem: the last request and the last error.

use crate::error::{Error, ErrorView, Result};
use vstd::prelude::*;

verus! {

/// A log of exactly one most recent entry of each kind. Each new entry
/// replaces the one before it.
pub trait Last {
    /// The bytes of the last request that was recorded.
    spec fn last_cmd(&self) -> Seq<u8>;

    /// The last error that was recorded.
    spec fn last_err(&self) -> ErrorView;

    /// Records the bytes of a request.
    fn set_last_cmd(&mut self, input: Vec<u8>)
        ensures
            final(self).last_cmd() == input@,
            final(self).last_err() == old(self).last_err(),
    ;

    /// The bytes of the last request.
    fn get_last_cmd(&self) -> (r: Result<Vec<u8>>)
        ensures
            r matches Ok(bytes) && bytes@ == self.last_cmd(),
    ;

    /// Records an error.
    fn set_last_err(&mut self, err: Error)
        ensures
            final(self).last_err() == err@,
            final(self).last_cmd() == old(self).last_cmd(),
    ;

    /// The last error.
    fn get_last_err(&self) -> (r: Result<Error>)
        ensures
            r matches Ok(e) && e@ == self.last_err(),
    ;
}

/// The log that a dispatcher keeps.
pub struct Diagnostics {
    cmd: Vec<u8>,
    err: Error,
}

impl Diagnostics {
    /// An empty log: no request yet, and no error.
    pub fn new() -> (r: Diagnostics)
        ensures
            r.last_cmd() == Seq::<u8>::empty(),
            r.last_err() == ErrorView::Absent,
    {
        Diagnostics { cmd: Vec::new(), err: Error::Absent }
    }
}

impl Last for Diagnostics {
    closed spec fn last_cmd(&self) -> Seq<u8> {
        self.cmd@
    }

    closed spec fn last_err(&self) -> ErrorView {
        self.err@
    }

    fn set_last_cmd(&mut self, input: Vec<u8>) {
        self.cmd = input;
    }

    fn get_last_cmd(&self) -> (r: Result<Vec<u8>>) {
        Ok(self.cmd.clone())
    }

    fn set_last_err(&mut self, err: Error) {
        self.err = err;
    }

    fn get_last_err(&self) -> (r: Result<Error>) {
        Ok(self.err.duplicate())
    }
}

} // verus!
