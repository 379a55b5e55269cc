//! What the program says of its own build.
//!
//! The facts of a build (when, from which commit, for which target) are known
//! to whoever builds the program; they reach this module as a [`BuildInfo`].

use vstd::prelude::*;
use vstd::string::StringExecFns;

verus! {

/// The facts of one build.
#[derive(Clone, Debug, PartialEq, Eq)]
pub struct BuildInfo {
    /// When the build was made (UTC), in RFC 3339 form.
    pub timestamp: String,
    /// The day on which the build was made (UTC).
    pub date: String,
    /// The hash of the commit that was built.
    pub sha: String,
    /// That hash in its short form.
    pub short_sha: String,
    /// The day of that commit.
    pub commit_date: String,
    /// The target triple of the build.
    pub target: String,
    /// The version of the package.
    pub semver: String,
}

/// When the build was made (UTC), in RFC 3339 form.
pub fn now(build: &BuildInfo) -> (text: &str)
    ensures
        text@ == build.timestamp@,
{
    build.timestamp.as_str()
}

/// The day on which the build was made (UTC).
pub fn short_now(build: &BuildInfo) -> (text: &str)
    ensures
        text@ == build.date@,
{
    build.date.as_str()
}

/// The hash of the commit that was built.
pub fn sha(build: &BuildInfo) -> (text: &str)
    ensures
        text@ == build.sha@,
{
    build.sha.as_str()
}

/// The hash of the commit that was built, in its short form.
pub fn short_sha(build: &BuildInfo) -> (text: &str)
    ensures
        text@ == build.short_sha@,
{
    build.short_sha.as_str()
}

/// The day of the commit that was built.
pub fn commit_date(build: &BuildInfo) -> (text: &str)
    ensures
        text@ == build.commit_date@,
{
    build.commit_date.as_str()
}

/// The target triple of the build.
pub fn target(build: &BuildInfo) -> (text: &str)
    ensures
        text@ == build.target@,
{
    build.target.as_str()
}

/// The version of the package.
pub fn semver(build: &BuildInfo) -> (text: &str)
    ensures
        text@ == build.semver@,
{
    build.semver.as_str()
}

/// The name under which the pipe announces itself.
pub open spec fn spec_pipe_version(build: &BuildInfo) -> Seq<char> {
    "vollibrespot v"@ + build.semver@
}

/// The version line: the program's version, commit and commit day, the
/// commit and commit day of the protocol library, and the day of the build.
pub open spec fn spec_version_text(
    build: &BuildInfo,
    library_sha: Seq<char>,
    library_date: Seq<char>,
) -> Seq<char> {
    "vollibrespot v"@ + build.semver@ + " "@ + build.short_sha@ + " "@ + build.commit_date@
        + " (librespot "@ + library_sha + " "@ + library_date + ") -- Built On "@ + build.date@
}

/// Reads `librespot::core::version::SHA_SHORT`, the short hash of the commit
/// that the protocol library was built from. It is whatever that build found,
/// so the contract claims nothing of it.
#[verifier::external_body]
fn library_short_sha() -> (text: String) {
    librespot::core::version::SHA_SHORT.to_string()
}

/// Reads `librespot::core::version::COMMIT_DATE`, the day of the commit that
/// the protocol library was built from. It is whatever that build found, so
/// the contract claims nothing of it.
#[verifier::external_body]
fn library_commit_date() -> (text: String) {
    librespot::core::version::COMMIT_DATE.to_string()
}

/// The name under which the pipe announces itself.
pub fn pipe_version(build: &BuildInfo) -> (text: String)
    ensures
        text@ == spec_pipe_version(build),
{
    let mut text = String::from_str("vollibrespot v");
    text.append(build.semver.as_str());
    text
}

/// The version line for the given commit and commit day of the protocol
/// library.
pub fn version_text(build: &BuildInfo, library_sha: &str, library_date: &str) -> (text: String)
    ensures
        text@ == spec_version_text(build, library_sha@, library_date@),
{
    let mut text = String::from_str("vollibrespot v");
    text.append(build.semver.as_str());
    text.append(" ");
    text.append(build.short_sha.as_str());
    text.append(" ");
    text.append(build.commit_date.as_str());
    text.append(" (librespot ");
    text.append(library_sha);
    text.append(" ");
    text.append(library_date);
    text.append(") -- Built On ");
    text.append(build.date.as_str());
    text
}

/// The version line, with the commit and commit day that the protocol
/// library reports of itself.
pub fn version(build: &BuildInfo) -> (text: String)
    ensures
        exists|library_sha: Seq<char>, library_date: Seq<char>|
            text@ == spec_version_text(build, library_sha, library_date),
{
    let library_sha = library_short_sha();
    let library_date = library_commit_date();
    version_text(build, library_sha.as_str(), library_date.as_str())
}

} // verus!
