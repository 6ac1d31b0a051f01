use vstd::prelude::*;

use crate::builtins::{BuiltinFunction, FunctionEntry};
#[allow(unused_imports)]
use crate::types::{BaseType, Type, TypeModel};

verus! {

/// The entries of this group, as values.
pub open spec fn entries() -> Seq<FunctionEntry> {
    seq![
        FunctionEntry { name: "str.tostring"@, signature: "str.tostring(x)"@, return_type: TypeModel::Scalar(BaseType::String) },
        FunctionEntry { name: "str.format"@, signature: "str.format(template, args...)"@, return_type: TypeModel::Scalar(BaseType::String) },
        FunctionEntry { name: "str.format_time"@, signature: "str.format_time(time, format, timezone?)"@, return_type: TypeModel::Scalar(BaseType::String) },
        FunctionEntry { name: "str.contains"@, signature: "str.contains(s, substr)"@, return_type: TypeModel::Scalar(BaseType::Bool) },
        FunctionEntry { name: "str.replace"@, signature: "str.replace(s, from, to)"@, return_type: TypeModel::Scalar(BaseType::String) },
        FunctionEntry { name: "str.split"@, signature: "str.split(s, sep)"@, return_type: TypeModel::Unknown },
        FunctionEntry { name: "str.join"@, signature: "str.join(delim, arr)"@, return_type: TypeModel::Scalar(BaseType::String) },
        FunctionEntry { name: "str.tonumber"@, signature: "str.tonumber(s)"@, return_type: TypeModel::Scalar(BaseType::Float) },
        FunctionEntry { name: "str.replace_all"@, signature: "str.replace_all(source, target, replacement)"@, return_type: TypeModel::Scalar(BaseType::String) },
        FunctionEntry { name: "str.upper"@, signature: "str.upper(s)"@, return_type: TypeModel::Scalar(BaseType::String) },
        FunctionEntry { name: "str.lower"@, signature: "str.lower(s)"@, return_type: TypeModel::Scalar(BaseType::String) },
        FunctionEntry { name: "str.trim"@, signature: "str.trim(s)"@, return_type: TypeModel::Scalar(BaseType::String) },
        FunctionEntry { name: "str.repeat"@, signature: "str.repeat(s, repeat, separator?)"@, return_type: TypeModel::Scalar(BaseType::String) },
        FunctionEntry { name: "str.length"@, signature: "str.length(s)"@, return_type: TypeModel::Scalar(BaseType::Int) },
        FunctionEntry { name: "str.pos"@, signature: "str.pos(source, str)"@, return_type: TypeModel::Scalar(BaseType::Int) },
        FunctionEntry { name: "str.indexof"@, signature: "str.indexof(source, str)"@, return_type: TypeModel::Scalar(BaseType::Int) },
        FunctionEntry { name: "str.substring"@, signature: "str.substring(source, begin_pos, end_pos?)"@, return_type: TypeModel::Scalar(BaseType::String) },
        FunctionEntry { name: "str.startswith"@, signature: "str.startswith(source, str)"@, return_type: TypeModel::Scalar(BaseType::Bool) },
        FunctionEntry { name: "str.endswith"@, signature: "str.endswith(source, str)"@, return_type: TypeModel::Scalar(BaseType::Bool) },
        FunctionEntry { name: "str.match"@, signature: "str.match(source, regex)"@, return_type: TypeModel::Scalar(BaseType::String) },
        FunctionEntry { name: "str.match_all"@, signature: "str.match_all(source, regex)"@, return_type: TypeModel::Unknown },
    ]
}

/// The built-in functions of the `string` group.
pub fn list() -> (r: Vec<BuiltinFunction>)
    ensures
        r@.map_values(|f: BuiltinFunction| f.model()) == entries(),
{
    let r = vec![
        BuiltinFunction { name: "str.tostring", signature: "str.tostring(x)", return_type: Type::scalar(BaseType::String) },
        BuiltinFunction { name: "str.format", signature: "str.format(template, args...)", return_type: Type::scalar(BaseType::String) },
        BuiltinFunction { name: "str.format_time", signature: "str.format_time(time, format, timezone?)", return_type: Type::scalar(BaseType::String) },
        BuiltinFunction { name: "str.contains", signature: "str.contains(s, substr)", return_type: Type::scalar(BaseType::Bool) },
        BuiltinFunction { name: "str.replace", signature: "str.replace(s, from, to)", return_type: Type::scalar(BaseType::String) },
        BuiltinFunction { name: "str.split", signature: "str.split(s, sep)", return_type: Type::unknown() },
        BuiltinFunction { name: "str.join", signature: "str.join(delim, arr)", return_type: Type::scalar(BaseType::String) },
        BuiltinFunction { name: "str.tonumber", signature: "str.tonumber(s)", return_type: Type::scalar(BaseType::Float) },
        BuiltinFunction { name: "str.replace_all", signature: "str.replace_all(source, target, replacement)", return_type: Type::scalar(BaseType::String) },
        BuiltinFunction { name: "str.upper", signature: "str.upper(s)", return_type: Type::scalar(BaseType::String) },
        BuiltinFunction { name: "str.lower", signature: "str.lower(s)", return_type: Type::scalar(BaseType::String) },
        BuiltinFunction { name: "str.trim", signature: "str.trim(s)", return_type: Type::scalar(BaseType::String) },
        BuiltinFunction { name: "str.repeat", signature: "str.repeat(s, repeat, separator?)", return_type: Type::scalar(BaseType::String) },
        BuiltinFunction { name: "str.length", signature: "str.length(s)", return_type: Type::scalar(BaseType::Int) },
        BuiltinFunction { name: "str.pos", signature: "str.pos(source, str)", return_type: Type::scalar(BaseType::Int) },
        BuiltinFunction { name: "str.indexof", signature: "str.indexof(source, str)", return_type: Type::scalar(BaseType::Int) },
        BuiltinFunction { name: "str.substring", signature: "str.substring(source, begin_pos, end_pos?)", return_type: Type::scalar(BaseType::String) },
        BuiltinFunction { name: "str.startswith", signature: "str.startswith(source, str)", return_type: Type::scalar(BaseType::Bool) },
        BuiltinFunction { name: "str.endswith", signature: "str.endswith(source, str)", return_type: Type::scalar(BaseType::Bool) },
        BuiltinFunction { name: "str.match", signature: "str.match(source, regex)", return_type: Type::scalar(BaseType::String) },
        BuiltinFunction { name: "str.match_all", signature: "str.match_all(source, regex)", return_type: Type::unknown() },
    ];
    assert(r@.map_values(|f: BuiltinFunction| f.model()) =~= entries());
    r
}

} // verus!
