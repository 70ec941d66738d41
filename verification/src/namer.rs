//! Artifact Namer: derives the canonical artifact identity (owner, name)
//! and the output file path from a repository locator. Pure; no I/O.

use vstd::prelude::*;
use crate::strutil::lower_of;
use crate::strutil::split_seq;
use crate::strutil::split_str;
use crate::strutil::strip_suffix;
use crate::strutil::strip_suffix_spec;
use crate::strutil::to_lowercase;

verus! {

/// Error: the locator does not contain the two path segments needed to
/// derive an owner and a name.
#[derive(Debug, Clone, PartialEq, Eq)]
pub struct MalformedLocatorError;

/// The canonical (owner, name) pair derived from a locator: both
/// lowercase, the name with no trailing `.git` token. The pair keys the
/// output artifact, so it must be a function of the locator alone.
#[derive(Debug, Clone, PartialEq, Eq)]
pub struct ArtifactIdentity {
    pub owner: String,
    pub name: String,
}

/// A locator yields an identity exactly when splitting it on `'/'` gives
/// at least two segments.
pub open spec fn well_formed_locator(locator: Seq<char>) -> bool {
    split_seq(locator, '/').len() >= 2
}

/// The owner: the second-to-last path segment, lowercased.
pub open spec fn spec_owner(locator: Seq<char>) -> Seq<char> {
    let segs = split_seq(locator, '/');
    lower_of(segs[segs.len() - 2])
}

/// The name: the last path segment with a trailing `.git` stripped,
/// lowercased.
pub open spec fn spec_name(locator: Seq<char>) -> Seq<char> {
    let segs = split_seq(locator, '/');
    lower_of(strip_suffix_spec(segs.last(), ".git"@))
}

/// Derives the artifact identity from a locator; fails exactly when the
/// locator lacks the two path segments needed for owner and name.
pub fn name(locator: &str) -> (r: Result<ArtifactIdentity, MalformedLocatorError>)
    ensures
        r is Ok <==> well_formed_locator(locator@),
        r matches Ok(id) ==> id.owner@ == spec_owner(locator@) && id.name@ == spec_name(
            locator@,
        ),
{
    let segs = split_str(locator, '/');
    if segs.len() < 2 {
        return Err(MalformedLocatorError);
    }
    let owner_raw: &String = &segs[segs.len() - 2];
    let name_raw = strip_suffix(segs[segs.len() - 1].as_str(), ".git");
    let owner = to_lowercase(owner_raw.as_str());
    let nm = to_lowercase(name_raw.as_str());
    Ok(ArtifactIdentity { owner, name: nm })
}

/// The output artifact file name `{owner}-{name}.jar`.
pub open spec fn spec_artifact_file_name(owner: Seq<char>, nm: Seq<char>) -> Seq<char> {
    owner + "-"@ + nm + ".jar"@
}

/// Builds the output artifact file name for an identity.
pub fn artifact_file_name(id: &ArtifactIdentity) -> (r: String)
    ensures
        r@ == spec_artifact_file_name(id.owner@, id.name@),
{
    let mut r = id.owner.clone();
    r.append("-");
    r.append(id.name.as_str());
    r.append(".jar");
    r
}

/// The full destination path `{folder}/{owner}-{name}.jar`. The presence
/// of a file at this path is the sole cache signal for the skip policy.
pub open spec fn spec_dest_path(folder: Seq<char>, owner: Seq<char>, nm: Seq<char>) -> Seq<
    char,
> {
    folder + "/"@ + spec_artifact_file_name(owner, nm)
}

/// Builds the destination path of the artifact under the output folder.
pub fn dest_path(folder: &str, id: &ArtifactIdentity) -> (r: String)
    ensures
        r@ == spec_dest_path(folder@, id.owner@, id.name@),
{
    let mut r = folder.to_owned();
    r.append("/");
    let file = artifact_file_name(id);
    r.append(file.as_str());
    r
}

/// Law: the namer is deterministic and idempotent over a run — the
/// identity is a function of the locator alone, so any two derivations
/// from the same locator agree.
pub proof fn lemma_name_deterministic(
    locator: Seq<char>,
    owner1: Seq<char>,
    name1: Seq<char>,
    owner2: Seq<char>,
    name2: Seq<char>,
)
    requires
        owner1 == spec_owner(locator),
        name1 == spec_name(locator),
        owner2 == spec_owner(locator),
        name2 == spec_name(locator),
    ensures
        owner1 == owner2,
        name1 == name2,
{
}

} // verus!
