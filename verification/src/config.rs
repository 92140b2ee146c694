//! Invocation configuration and the exclusion policy.
//!
//! A name is excluded from rewriting when it stands in the built-in set of
//! ambient global names or among the caller-supplied ignored names.
use vstd::prelude::*;
use crate::ast::names_view;

verus! {

/// Per-invocation configuration: the caller's ignored names, and the
/// collection flag (carried for the caller's sake; collection itself is
/// governed solely by probe-call scoping).
#[allow(non_snake_case)]
#[derive(Debug, PartialEq, Eq)]
pub struct Config {
    /// Names the caller excludes from rewriting; presence alone matters.
    pub ignoreMap: Vec<String>,
    pub needCollect: bool,
}

/// The result of one invocation: the rewritten code and the property names
/// collected inside probe-marked calls, in encounter order.
#[derive(Debug, PartialEq, Eq)]
pub struct Res {
    pub code: String,
    pub props: Vec<String>,
}

/// The built-in set of ambient global names that are never rewritten.
pub open spec fn default_ignored(name: Seq<char>) -> bool {
    ||| name == "Infinity"@
    ||| name == "undefined"@
    ||| name == "NaN"@
    ||| name == "isFinite"@
    ||| name == "isNaN"@
    ||| name == "parseFloat"@
    ||| name == "parseInt"@
    ||| name == "decodeURI"@
    ||| name == "decodeURIComponent"@
    ||| name == "encodeURI"@
    ||| name == "encodeURIComponent"@
    ||| name == "Math"@
    ||| name == "Number"@
    ||| name == "Date"@
    ||| name == "Array"@
    ||| name == "Object"@
    ||| name == "Boolean"@
    ||| name == "String"@
    ||| name == "RegExp"@
    ||| name == "Map"@
    ||| name == "Set"@
    ||| name == "JSON"@
    ||| name == "Intl"@
    ||| name == "require"@
    ||| name == "global"@
}

/// A name is excluded iff it is among the caller's ignored names or in the
/// built-in set.
pub open spec fn excluded(ignored: Seq<Seq<char>>, name: Seq<char>) -> bool {
    ignored.contains(name) || default_ignored(name)
}

/// Compares a name against a string literal.
pub(crate) fn str_lit_eq(s: &String, lit: &str) -> (r: bool)
    ensures
        r == (s@ == lit@),
{
    *s == lit.to_owned()
}

/// Whether `key` occurs among `names`.
fn contains_name(names: &Vec<String>, key: &String) -> (r: bool)
    ensures
        r == names_view(names@).contains(key@),
{
    let mut i: usize = 0;
    while i < names.len()
        invariant
            i <= names.len(),
            forall|j: int| 0 <= j < i ==> names@[j]@ != key@,
        decreases names.len() - i,
    {
        if str_lit_eq(&names[i], key.as_str()) {
            assert(names_view(names@)[i as int] == key@);
            return true;
        }
        i = i + 1;
    }
    assert(forall|j: int| 0 <= j < names@.len() ==> names_view(names@)[j] != key@);
    false
}

/// Whether `key` is in the built-in set.
fn in_default_set(key: &String) -> (r: bool)
    ensures
        r == default_ignored(key@),
{
    str_lit_eq(key, "Infinity") || str_lit_eq(key, "undefined") || str_lit_eq(key, "NaN")
        || str_lit_eq(key, "isFinite") || str_lit_eq(key, "isNaN")
        || str_lit_eq(key, "parseFloat") || str_lit_eq(key, "parseInt")
        || str_lit_eq(key, "decodeURI") || str_lit_eq(key, "decodeURIComponent")
        || str_lit_eq(key, "encodeURI") || str_lit_eq(key, "encodeURIComponent")
        || str_lit_eq(key, "Math") || str_lit_eq(key, "Number") || str_lit_eq(key, "Date")
        || str_lit_eq(key, "Array") || str_lit_eq(key, "Object") || str_lit_eq(key, "Boolean")
        || str_lit_eq(key, "String") || str_lit_eq(key, "RegExp") || str_lit_eq(key, "Map")
        || str_lit_eq(key, "Set") || str_lit_eq(key, "JSON") || str_lit_eq(key, "Intl")
        || str_lit_eq(key, "require") || str_lit_eq(key, "global")
}

impl Config {
    /// True iff `key` is never to be rewritten, by the caller's ignored names
    /// or the built-in set.
    pub fn check_ignore(self: &Config, key: &String) -> (r: bool)
        ensures
            r == excluded(names_view(self.ignoreMap@), key@),
    {
        contains_name(&self.ignoreMap, key) || in_default_set(key)
    }
}

/// An absent configuration means no ignored names and no collection flag.
pub fn normalize_config(input_config: Option<Config>) -> (c: Config)
    ensures
        match input_config {
            Some(given) => c == given,
            None => c.ignoreMap@.len() == 0 && c.needCollect == false,
        },
{
    let config = match input_config {
        Some(input_config) => input_config,
        None => Config { ignoreMap: Vec::new(), needCollect: false },
    };
    config
}

} // verus!
