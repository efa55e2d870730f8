use rhai::packages::{BasicArrayPackage, MoreStringPackage, Package};
use rhai::{Engine, EvalAltResult, Scope};
use vstd::prelude::*;
use vstd::utf8::{decode_utf8, valid_utf8};

use crate::limits::in_range;

verus! {

/// `rhai::EvalAltResult`, the error of a script that does not compile or
/// fails while it runs. Nothing is known of what it holds.
#[verifier::external_type_specification]
#[verifier::external_body]
pub struct ExEvalAltResult(EvalAltResult);

/// `core::str::Utf8Error`. Nothing is known of what it holds.
#[verifier::external_type_specification]
#[verifier::external_body]
pub struct ExUtf8Error(core::str::Utf8Error);

/// What `rhai::Engine::eval_with_scope::<i64>` gives for `script` on a
/// sandboxed engine with the limits set and a scope whose one variable
/// `var` holds the string `value`: the integer the script returns, or `None`
/// where the script is rejected by the parser, fails while it runs, exceeds a
/// limit or returns a value that is no integer.
pub uninterp spec fn engine_result(
    var: Seq<char>,
    value: Seq<char>,
    script: Seq<char>,
    operations: u64,
    expr_depth: usize,
    string_size: usize,
    collection_size: usize,
) -> Option<i64>;

/// Compiles and runs `script` with `rhai::Engine::eval_with_scope::<i64>`.
///
/// The engine starts raw: it prints nowhere, resolves no module, and has only
/// the array and string packages beside the operators built into it; none of
/// these reads the clock, the disk or the environment, and the crate is built
/// with fixed hash keys. Switched off are loops, `eval`, the function
/// pointers (`Fn`, `curry`, `call`), map literals, `switch`, `try` and
/// `throw`: the first three because no limit of the engine bounds how deep
/// they nest or how large they grow, the rest because a rule has no use for
/// them. The operation budget, the expression depth and the sizes of
/// strings, arrays and maps are set, and `in_range` keeps the collection size
/// low enough for the engine's recursion over nested arrays, so the call
/// returns. Taken on trust: under these settings the outcome depends on the
/// arguments alone, which is what equating it with `engine_result` claims.
#[verifier::external_body]
pub(crate) fn run_script(
    var: &str,
    value: &str,
    script: &str,
    operations: u64,
    expr_depth: usize,
    string_size: usize,
    collection_size: usize,
) -> (r: Result<i64, Box<EvalAltResult>>)
    requires
        in_range(operations, expr_depth, string_size, collection_size),
    ensures
        r.is_ok() == engine_result(var@, value@, script@, operations, expr_depth, string_size, collection_size).is_some(),
        r matches Ok(v) ==> engine_result(var@, value@, script@, operations, expr_depth, string_size, collection_size)
            == Some(v),
{
    let mut engine = Engine::new_raw();
    engine.register_global_module(BasicArrayPackage::new().as_shared_module());
    engine.register_global_module(MoreStringPackage::new().as_shared_module());
    engine.disable_symbol("eval").disable_symbol("Fn").disable_symbol("curry").disable_symbol("call");
    engine.disable_symbol("#{").disable_symbol("switch").disable_symbol("try").disable_symbol("throw");
    engine.set_allow_looping(false);
    engine.set_max_operations(operations).set_max_expr_depths(expr_depth);
    engine.set_max_string_size(string_size).set_max_array_size(collection_size).set_max_map_size(collection_size);
    let mut scope = Scope::new();
    scope.push(var, value.to_owned());
    engine.eval_with_scope::<i64>(&mut scope, script)
}

/// `core::str::from_utf8` succeeds exactly on well-formed UTF-8, and the
/// string it returns holds the characters that the bytes encode.
pub assume_specification[ core::str::from_utf8 ](v: &[u8]) -> (r: Result<&str, core::str::Utf8Error>)
    ensures
        r.is_ok() == valid_utf8(v@),
        r matches Ok(s) ==> s@ == decode_utf8(v@),
;

} // verus!
