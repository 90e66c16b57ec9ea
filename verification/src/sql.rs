//! SQL storage-type inference.
//!
//! When SQL binding is requested, the wrapped type's terminal path segment is
//! mapped to a storage-type tag. Unrecognized terminals degrade to the empty
//! tag: that is a documented non-failure, not an error.

use vstd::prelude::*;
use vstd::string::StringExecFns;
use crate::model::str_eq_str;

verus! {

/// The storage-type tag for a terminal type name. The mapping is exact and
/// case-sensitive; every name outside the table maps to the empty tag.
pub open spec fn spec_sql_tag(name: Seq<char>) -> Seq<char> {
    if name == "u128"@ || name == "i128"@ || name == "Uuid"@ {
        "UUID"@
    } else if name == "u64"@ || name == "i64"@ {
        "INT8"@
    } else if name == "u32"@ || name == "i32"@ {
        "INT4"@
    } else if name == "u16"@ || name == "i16"@ || name == "u8"@ || name == "i8"@ {
        "INT2"@
    } else if name == "bool"@ {
        "BOOL"@
    } else {
        Seq::<char>::empty()
    }
}

/// Map a wrapped type's terminal name to its storage-type tag, or to the
/// empty string when the name has no mapping.
pub fn infer_sql_tag(name: &str) -> (tag: String)
    ensures
        tag@ == spec_sql_tag(name@),
{
    if str_eq_str(name, "u128") || str_eq_str(name, "i128") || str_eq_str(name, "Uuid") {
        String::from_str("UUID")
    } else if str_eq_str(name, "u64") || str_eq_str(name, "i64") {
        String::from_str("INT8")
    } else if str_eq_str(name, "u32") || str_eq_str(name, "i32") {
        String::from_str("INT4")
    } else if str_eq_str(name, "u16") || str_eq_str(name, "i16") || str_eq_str(name, "u8")
        || str_eq_str(name, "i8") {
        String::from_str("INT2")
    } else if str_eq_str(name, "bool") {
        String::from_str("BOOL")
    } else {
        String::new()
    }
}

} // verus!
