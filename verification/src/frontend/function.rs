//! Function definitions: user-defined bodies and the host-provided natives.

use vstd::prelude::*;
use std::rc::Rc;
use crate::ast::lua_program::FunctionBody;
use crate::err_handle::RuntimeFailure;
use crate::frontend::Context;
use crate::frontend::data::{DataKind, Val, vals_of};
use crate::frontend::natives::emit_line;
use crate::frontend::semantics::{EvalOut, s_native};

verus! {

/// A callable definition: a user-defined body registered by name, or one of
/// the host's native operations.
pub enum FunctionKind {
    External(Rc<FunctionBody>),
    Internal(InternalFunctionTypes),
}

/// The shapes of native functions the host provides. Each shape fixes its
/// arity and argument types; the checks are the native protocol's own and
/// fail with `BadFunctionArgs`.
pub enum InternalFunctionTypes {
    TakesOneStr(OneStrFn),
}

/// The closed set of host operations that take one string. The reference
/// surface is `print`, which writes its argument and a newline to standard
/// output.
#[derive(Debug, Clone, Copy, PartialEq, Eq, Structural)]
pub enum OneStrFn {
    PrintLine,
}

/// The host operation behind a native definition.
pub open spec fn one_str_op(f: InternalFunctionTypes) -> OneStrFn {
    match f {
        InternalFunctionTypes::TakesOneStr(op) => op,
    }
}

impl InternalFunctionTypes {
    /// Runs a native definition that takes one string on already-resolved
    /// argument values: exactly one argument, which must be a string, or the
    /// call fails with `BadFunctionArgs`; the text is printed and recorded
    /// in the output log.
    pub fn run_function_one_string(&self, context: &mut Context, args: Vec<DataKind>) -> (r: Result<(), RuntimeFailure>)
        ensures
            ({
                let (st, out) = s_native(old(context)@, one_str_op(*self), vals_of(args@));
                &&& final(context)@ == st
                &&& match r {
                    Ok(()) => out == EvalOut::Val(Val::Nil),
                    Err(e) => out == EvalOut::Fail(e@),
                }
            }),
    {
        match self {
            InternalFunctionTypes::TakesOneStr(op) => {
                if args.len() != 1 {
                    return Err(RuntimeFailure::BadFunctionArgs("Function should have 1 arg".to_owned(), context.current_line));
                }
                match &args[0] {
                    DataKind::String(text) => {
                        match op {
                            OneStrFn::PrintLine => {
                                emit_line(text.as_str());
                                context.log_line(text.clone());
                            },
                        }
                        Ok(())
                    },
                    _ => Err(RuntimeFailure::BadFunctionArgs("Function expected a string".to_owned(), context.current_line)),
                }
            },
        }
    }
}

/// Relies on `Rc::clone`: the result is another handle to the same
/// allocation, so it equals the argument.
#[verifier::external_body]
pub fn rc_body_clone(rc: &Rc<FunctionBody>) -> (res: Rc<FunctionBody>)
    ensures
        res == *rc,
{
    Rc::clone(rc)
}

/// Relies on `Rc::as_ref`: the reference leads to the shared allocation's
/// value.
#[verifier::external_body]
pub fn rc_body_ref(rc: &Rc<FunctionBody>) -> (res: &FunctionBody)
    ensures
        *res == **rc,
{
    rc.as_ref()
}

} // verus!
