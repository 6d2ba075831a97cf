//! The capability to run a unit of work in the background.

use futures::task::FutureObj;
use std::sync::Arc;
use vstd::prelude::*;

verus! {

/// Something that runs futures independently of whoever hands them over: a
/// thread pool, for one.
pub trait Executor {
    /// Run the given future in the background until it ends.
    fn exec(&self, future: FutureObj<'static, ()>);
}

impl<'a, T: ?Sized + Executor> Executor for &'a T {
    fn exec(&self, f: FutureObj<'static, ()>) {
        T::exec(&**self, f)
    }
}

impl<'a, T: ?Sized + Executor> Executor for &'a mut T {
    fn exec(&self, f: FutureObj<'static, ()>) {
        T::exec(&**self, f)
    }
}

impl<T: ?Sized + Executor> Executor for Box<T> {
    fn exec(&self, f: FutureObj<'static, ()>) {
        T::exec(&**self, f)
    }
}

impl<T: ?Sized + Executor> Executor for Arc<T> {
    fn exec(&self, f: FutureObj<'static, ()>) {
        T::exec(&**self, f)
    }
}

} // verus!
