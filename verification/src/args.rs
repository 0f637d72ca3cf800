//! Argument resolver: turns the raw command-line tokens of the
//! `validator-whitelist` subcommand into a validated request.
//!
//! The subcommand's schema is one required positional value, `path`.  The
//! raw token list starts with the invocation name itself (which, as usual
//! for an argument vector, is not validated), followed by the positional
//! values.

use vstd::prelude::*;
use vstd::string::StringExecFns;

verus! {

/// The validated request: a filesystem path to a whitelist document.
/// The path is opaque to this command: it is relayed verbatim to the
/// running node, never opened, trimmed or normalized here.
#[derive(Debug, PartialEq)]
pub struct ValidatorWhitelistArgs {
    pub path: String,
}

/// Why an invocation failed validation, before any connection attempt.
#[derive(Debug, PartialEq)]
pub enum ArgumentError {
    /// A required value was omitted; carries the name of the missing value.
    MissingRequiredValue(String),
    /// A positional value beyond the schema was supplied; carries it.
    UnexpectedArgument(String),
}

/// The raw token list omits the required `path` value: only the invocation
/// name (or nothing at all) was supplied.
pub open spec fn missing_path(raw: Seq<String>) -> bool {
    raw.len() < 2
}

/// The raw token list carries a positional value beyond the single one the
/// schema declares.
pub open spec fn surplus_argument(raw: Seq<String>) -> bool {
    raw.len() > 2
}

/// What resolution must return for a given raw token list: the missing-value
/// error when `path` is omitted, a schema error on a surplus positional, and
/// otherwise the request carrying the supplied path unchanged.
pub open spec fn resolution_obeys_schema(
    raw: Seq<String>,
    r: Result<ValidatorWhitelistArgs, ArgumentError>,
) -> bool {
    if missing_path(raw) {
        r matches Err(e) && e matches ArgumentError::MissingRequiredValue(name)
            && name@ == "path"@
    } else if surplus_argument(raw) {
        r matches Err(e) && e matches ArgumentError::UnexpectedArgument(value)
            && value@ == raw[2]@
    } else {
        r matches Ok(a) && a.path@ == raw[1]@
    }
}

/// The name of the subcommand, as the command-line surface declares it.
pub fn command_name() -> (name: String)
    ensures
        name@ == "validator-whitelist"@,
{
    String::from_str("validator-whitelist")
}

/// Resolve the raw tokens of one invocation into a validated request.
///
/// `raw_arguments[0]` is the invocation name; `raw_arguments[1]`, which is
/// required, is the `path` value.  Resolution is a pure transformation: a
/// missing path fails with `ArgumentError::MissingRequiredValue("path")`,
/// never a silent default, and a supplied path is copied into the request
/// byte for byte.
pub fn resolve(raw_arguments: &Vec<String>) -> (r: Result<
    ValidatorWhitelistArgs,
    ArgumentError,
>)
    ensures
        resolution_obeys_schema(raw_arguments@, r),
{
    if raw_arguments.len() < 2 {
        Err(ArgumentError::MissingRequiredValue(String::from_str("path")))
    } else if raw_arguments.len() > 2 {
        Err(ArgumentError::UnexpectedArgument(raw_arguments[2].clone()))
    } else {
        Ok(ValidatorWhitelistArgs { path: raw_arguments[1].clone() })
    }
}

/// Every raw token list that supplies exactly one path value resolves to a
/// request that preserves that value byte for byte: no trimming, no
/// normalization, no existence check.
pub proof fn lemma_single_path_preserved(
    raw: Seq<String>,
    r: Result<ValidatorWhitelistArgs, ArgumentError>,
)
    requires
        raw.len() == 2,
        resolution_obeys_schema(raw, r),
    ensures
        r matches Ok(a) && a.path@ == raw[1]@,
{
}

} // verus!
