use vstd::prelude::*;

verus! {

/// The version text: the semantic version, then the commit's short hash and
/// date in parentheses, as in `0.1.0 (2be4034 2022-03-31)`.
pub open spec fn build_info_model(semver: Seq<char>, sha: Seq<char>, date: Seq<char>) -> Seq<char> {
    semver + " ("@ + sha + " "@ + date + ")"@
}

/// Composes the version text from the build's semantic version, commit
/// short hash and commit date.
pub fn build_info(semver: &str, sha: &str, date: &str) -> (r: String)
    ensures
        r@ == build_info_model(semver@, sha@, date@),
{
    let mut r = String::from_str(semver);
    r.append(" (");
    r.append(sha);
    r.append(" ");
    r.append(date);
    r.append(")");
    r
}

} // verus!
