//! Functions: a typed wrapper around a host callable.

use vstd::prelude::*;
use std::rc::Rc;
use crate::types::FuncType;
use crate::values::{Trap, Val};

verus! {

/// The behaviour of a host function. `call` receives the arguments and a
/// result buffer of the function's result arity, and either fills the
/// buffer or fails with a trap. The buffer is a slice, so its length is the
/// same after the call as before.
pub trait Callable {
    fn call(&self, params: &[Val], results: &mut [Val]) -> (r: Result<(), Rc<Trap>>)
        ensures
            final(results)@.len() == old(results)@.len(),
    ;
}

/// The outcome of a call, from what the callable reported and the buffer
/// it was given: the filled buffer on success, the trap alone otherwise.
pub fn finish_call(status: Result<(), Rc<Trap>>, results: Vec<Val>) -> (r: Result<
    Vec<Val>,
    Rc<Trap>,
>)
    ensures
        status is Ok ==> r is Ok && r->Ok_0@ == results@,
        status is Err ==> r is Err && r->Err_0 == status->Err_0,
{
    match status {
        Ok(()) => Ok(results),
        Err(trap) => Err(trap),
    }
}

/// A function whose type is fixed at construction and whose calls go to a
/// host callable.
pub struct Func<C> {
    callable: Rc<C>,
    ty: FuncType,
}

impl<C: Callable> Func<C> {
    pub closed spec fn ftype_params(&self) -> Seq<crate::values::ValType> {
        self.ty.params@
    }

    pub closed spec fn ftype_results(&self) -> Seq<crate::values::ValType> {
        self.ty.results@
    }

    pub closed spec fn callee(&self) -> Rc<C> {
        self.callable
    }

    /// A function of type `ty` backed by the host callable `callable`.
    pub fn new(ty: FuncType, callable: Rc<C>) -> (r: Func<C>)
        ensures
            r.ftype_params() == ty.params@,
            r.ftype_results() == ty.results@,
            r.callee() == callable,
    {
        Func::from_wrapped(ty, callable)
    }

    fn from_wrapped(ty: FuncType, callable: Rc<C>) -> (r: Func<C>)
        ensures
            r.ftype_params() == ty.params@,
            r.ftype_results() == ty.results@,
            r.callee() == callable,
    {
        Func { callable, ty }
    }

    pub fn ty(&self) -> (r: &FuncType)
        ensures
            r.params@ == self.ftype_params(),
            r.results@ == self.ftype_results(),
    {
        &self.ty
    }

    pub fn callable(&self) -> (r: &Rc<C>)
        ensures
            *r == self.callee(),
    {
        &self.callable
    }

    pub fn param_arity(&self) -> (r: usize)
        ensures
            r == self.ftype_params().len(),
    {
        self.ty.params.len()
    }

    pub fn result_arity(&self) -> (r: usize)
        ensures
            r == self.ftype_results().len(),
    {
        self.ty.results.len()
    }

    /// Calls the function: hands the callable a buffer of `result_arity()`
    /// null values and returns it once filled, or the trap the callable
    /// raised.
    pub fn call(&self, params: &[Val]) -> (r: Result<Vec<Val>, Rc<Trap>>)
        ensures
            r is Ok ==> r->Ok_0@.len() == self.ftype_results().len(),
    {
        let mut results = vec![Val::default(); self.result_arity()];
        let status = self.callable.call(params, results.as_mut_slice());
        finish_call(status, results)
    }
}

} // verus!
