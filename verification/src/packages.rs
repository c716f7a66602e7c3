//! Judging package lists: the names of the array attributes the doctor
//! parses, and the verdict one package-list file receives from what
//! reading it and parsing its queried array yielded.

use vstd::prelude::*;
use crate::observe::ArrayOutcome;
use crate::verdict::ParseVerdict;

verus! {

/// The attribute whose array holds the system packages.
pub fn system_packages_attr() -> (r: &'static str)
    ensures
        r@ == "environment.systemPackages"@,
{
    "environment.systemPackages"
}

/// The attribute whose array holds the Homebrew formulae.
pub fn brews_attr() -> (r: &'static str)
    ensures
        r@ == "homebrew.brews"@,
{
    "homebrew.brews"
}

/// The attribute whose array holds the Homebrew casks.
pub fn casks_attr() -> (r: &'static str)
    ensures
        r@ == "homebrew.casks"@,
{
    "homebrew.casks"
}

/// The verdict `v` is the one owed for a list whose read-and-parse went as
/// `obs`: the exact entry count when the array was parsed, the parser's own
/// error text when it was not, and the read error's own text when the file
/// could not be read.
pub open spec fn list_verdict_ok(v: ParseVerdict, obs: ArrayOutcome) -> bool {
    match obs {
        ArrayOutcome::Values { values } => v matches ParseVerdict::Parsed { count } && count
            == values@.len(),
        ArrayOutcome::ParseError { message } => v matches ParseVerdict::ParseFailed {
            message: m,
        } && m@ == message@,
        ArrayOutcome::ReadError { message } => v matches ParseVerdict::ReadFailed { message: m }
            && m@ == message@,
    }
}

/// The verdict for one package-list file, from what reading it and parsing
/// its queried array attribute yielded.
pub fn check_package_list(obs: &ArrayOutcome) -> (v: ParseVerdict)
    ensures
        list_verdict_ok(v, *obs),
{
    match obs {
        ArrayOutcome::Values { values } => ParseVerdict::Parsed { count: values.len() },
        ArrayOutcome::ParseError { message } => ParseVerdict::ParseFailed {
            message: message.clone(),
        },
        ArrayOutcome::ReadError { message } => ParseVerdict::ReadFailed {
            message: message.clone(),
        },
    }
}

/// Judging a package list is read-only and deterministic: two runs over the
/// same read-and-parse outcome agree on which branch fires, on the reported
/// entry count, and on the reported error text.
pub proof fn lemma_parse_deterministic(v1: ParseVerdict, v2: ParseVerdict, obs: ArrayOutcome)
    requires
        list_verdict_ok(v1, obs),
        list_verdict_ok(v2, obs),
    ensures
        v1 is Parsed <==> v2 is Parsed,
        v1 is ParseFailed <==> v2 is ParseFailed,
        v1 is ReadFailed <==> v2 is ReadFailed,
        v1 matches ParseVerdict::Parsed { count: c1 } ==> (v2 matches ParseVerdict::Parsed {
            count: c2,
        } && c1 == c2),
        v1 matches ParseVerdict::ParseFailed { message: m1 } ==> (
        v2 matches ParseVerdict::ParseFailed { message: m2 } && m1@ == m2@),
        v1 matches ParseVerdict::ReadFailed { message: m1 } ==> (
        v2 matches ParseVerdict::ReadFailed { message: m2 } && m1@ == m2@),
{
}

} // verus!
