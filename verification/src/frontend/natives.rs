//! The native library the host registers before execution begins. The
//! reference surface is a single function, `print`, which writes its
//! argument followed by a newline to standard output.

use vstd::prelude::*;
use std::io::Write;
use crate::frontend::function::{FunctionKind, InternalFunctionTypes, OneStrFn};
use crate::frontend::function_map::FunctionMap;
use crate::frontend::variable_map::{assoc_lookup, assoc_insert};

verus! {

/// Registers the standard library into a registry: `print`, taking one
/// string. On a registry that already has the name, nothing changes.
pub fn register_std_lib(function_map: &mut FunctionMap)
    ensures
        final(function_map)@ == if assoc_lookup(old(function_map)@, "print"@) is None {
            assoc_insert(old(function_map)@, "print"@, FunctionKind::Internal(InternalFunctionTypes::TakesOneStr(OneStrFn::PrintLine)))
        } else {
            old(function_map)@
        },
{
    let kind = FunctionKind::Internal(InternalFunctionTypes::TakesOneStr(OneStrFn::PrintLine));
    let _ = function_map.register_function("print".to_owned(), kind);
}

/// Relies on `std::io::Stdout` and the `writeln!` macro: writes the text
/// and a newline to standard output. The engine records the same text in
/// its output log, which is the specified face of this side effect.
#[verifier::external_body]
pub(crate) fn emit_line(text: &str) {
    let mut out = std::io::stdout();
    let _ = writeln!(out, "{}", text);
}

} // verus!
