//! Build-system detection and the build strategies. The detector
//! classifies a working directory by its immediate file entries; a
//! strategy evaluates the build tool's captured result and locates the
//! produced artifact among the build output entries. The external work
//! itself (listing directories, running the tool, copying files) happens
//! outside; every decision over its answers is made and verified here.

use vstd::prelude::*;
use crate::strutil::has_suffix;
use crate::strutil::normalize_slashes;
use crate::strutil::normalize_slashes_spec;
use crate::strutil::split_seq;
use crate::strutil::split_str;
use crate::strutil::strip_suffix;
use crate::strutil::strip_suffix_spec;
use crate::strutil::str_ends_with;
use crate::strutil::lemma_split_nonempty;

verus! {

/// The detectable build systems. Adding one means adding a variant and
/// its marker; the orchestrator never changes.
#[derive(Debug, Clone, Copy, PartialEq, Eq, Structural)]
pub enum BuildSystemKind {
    Gradle,
}

/// The ways a compile step can fail: the build tool exited non-zero
/// (with its full captured output), the project type was not recognized,
/// or no unambiguous artifact was found after a successful build.
#[derive(Debug, Clone, PartialEq, Eq)]
pub enum CompilerError {
    CompilationFailed { stdout: String, stderr: String },
    UnsupportedProject,
    ArtifactNotFound,
}

/// A directory entry that marks a gradle project.
pub open spec fn is_gradle_marker(entry: Seq<char>) -> bool {
    entry == "build.gradle"@
}

/// The build system detected from a directory's immediate file entries:
/// gradle exactly when a `build.gradle` marker is present, none
/// otherwise.
pub open spec fn spec_detect(entries: Seq<Seq<char>>) -> Option<BuildSystemKind> {
    if exists|i: int| 0 <= i < entries.len() && is_gradle_marker(entries[i]) {
        Some(BuildSystemKind::Gradle)
    } else {
        None
    }
}

/// Build-System Detector: scans the given immediate file entries of a
/// working directory for a recognized marker file.
pub fn detect(entries: &Vec<String>) -> (r: Option<BuildSystemKind>)
    ensures
        r == spec_detect(entries.deep_view()),
{
    let marker_str: &str = "build.gradle";
    let marker = marker_str.to_owned();
    let mut i: usize = 0;
    while i < entries.len()
        invariant
            0 <= i <= entries.len(),
            marker@ == "build.gradle"@,
            forall|k: int| 0 <= k < i ==> !is_gradle_marker(entries.deep_view()[k]),
        decreases entries.len() - i,
    {
        let e: &String = &entries[i];
        proof {
            assert(entries.deep_view()[i as int] == entries@[i as int]@);
        }
        if *e == marker {
            return Some(BuildSystemKind::Gradle);
        }
        i += 1;
    }
    None
}

/// The build tool succeeded exactly when it exited with code zero; a
/// missing code (termination by signal) is a failure as well.
pub open spec fn build_succeeded(exit_code: Option<i32>) -> bool {
    exit_code == Some(0i32)
}

/// A build output entry that follows the fat-jar naming convention.
pub open spec fn is_fat_jar(entry: Seq<char>) -> bool {
    has_suffix(entry, "-all.jar"@)
}

/// How many of the entries follow the fat-jar naming convention.
pub open spec fn fat_jar_count(entries: Seq<Seq<char>>) -> nat
    decreases entries.len(),
{
    if entries.len() == 0 {
        0
    } else {
        fat_jar_count(entries.drop_last()) + if is_fat_jar(entries.last()) {
            1nat
        } else {
            0nat
        }
    }
}

/// The count is zero exactly when no entry matches.
pub proof fn lemma_fat_jar_count_zero(entries: Seq<Seq<char>>)
    ensures
        fat_jar_count(entries) == 0 <==> (forall|i: int|
            0 <= i < entries.len() ==> !is_fat_jar(entries[i])),
    decreases entries.len(),
{
    if entries.len() > 0 {
        lemma_fat_jar_count_zero(entries.drop_last());
        assert(forall|i: int|
            0 <= i < entries.len() - 1 ==> entries.drop_last()[i] == entries[i]);
    }
}

/// An entry that matches puts the count at one at least.
pub proof fn lemma_fat_jar_count_pos(entries: Seq<Seq<char>>, i: int)
    requires
        0 <= i < entries.len(),
        is_fat_jar(entries[i]),
    ensures
        fat_jar_count(entries) >= 1,
    decreases entries.len(),
{
    if i < entries.len() - 1 {
        assert(entries.drop_last()[i] == entries[i]);
        lemma_fat_jar_count_pos(entries.drop_last(), i);
    }
}

/// With a count of one, any two matching entries stand at the same
/// index: the match is unique.
pub proof fn lemma_fat_jar_count_one_unique(entries: Seq<Seq<char>>, i: int, j: int)
    requires
        fat_jar_count(entries) == 1,
        0 <= i < entries.len(),
        0 <= j < entries.len(),
        is_fat_jar(entries[i]),
        is_fat_jar(entries[j]),
    ensures
        i == j,
    decreases entries.len(),
{
    if i != j {
        let hi = if i < j {
            j
        } else {
            i
        };
        let lo = if i < j {
            i
        } else {
            j
        };
        if hi == entries.len() - 1 {
            assert(fat_jar_count(entries.drop_last()) == 0);
            lemma_fat_jar_count_zero(entries.drop_last());
            assert(entries.drop_last()[lo] == entries[lo]);
        } else {
            assert(entries.drop_last()[lo] == entries[lo]);
            assert(entries.drop_last()[hi] == entries[hi]);
            if is_fat_jar(entries.last()) {
                lemma_fat_jar_count_pos(entries.drop_last(), lo);
            } else {
                lemma_fat_jar_count_one_unique(entries.drop_last(), lo, hi);
            }
        }
    }
}

/// Locates the produced artifact among the build output entries: the
/// unique entry named by the fat-jar convention. Fails when no entry
/// matches, and also when several do — an ambiguous build output is not
/// silently resolved.
pub fn locate_fat_jar(entries: &Vec<String>) -> (r: Result<String, CompilerError>)
    ensures
        r is Ok <==> fat_jar_count(entries.deep_view()) == 1,
        r matches Ok(a) ==> is_fat_jar(a@) && (exists|i: int|
            0 <= i < entries.deep_view().len() && entries.deep_view()[i] == a@),
        r matches Ok(a) ==> (forall|k: int|
            0 <= k < entries.deep_view().len() && is_fat_jar(entries.deep_view()[k])
                ==> entries.deep_view()[k] == a@),
        r matches Err(e) ==> e == CompilerError::ArtifactNotFound,
{
    let ghost all = entries.deep_view();
    let mut hits: usize = 0;
    let mut found: Option<String> = None;
    let mut i: usize = 0;
    let ghost mut found_idx: int = 0;
    proof {
        assert(all.take(0) =~= Seq::<Seq<char>>::empty());
    }
    while i < entries.len()
        invariant
            all == entries.deep_view(),
            0 <= i <= entries.len(),
            entries.len() == all.len(),
            hits <= i,
            hits == fat_jar_count(all.take(i as int)),
            found is Some <==> hits >= 1,
            hits >= 1 ==> 0 <= found_idx < i && is_fat_jar(all[found_idx]),
            found matches Some(a) ==> is_fat_jar(a@) && all[found_idx] == a@,
        decreases entries.len() - i,
    {
        proof {
            assert(all.take(i + 1).drop_last() =~= all.take(i as int));
            assert(all.take(i + 1).last() == all[i as int]);
        }
        let e: &String = &entries[i];
        if str_ends_with(e.as_str(), "-all.jar") {
            if hits == 0 {
                found = Some(e.clone());
                proof {
                    found_idx = i as int;
                }
            }
            hits = hits + 1;
        }
        i += 1;
    }
    proof {
        assert(all.take(entries.len() as int) =~= all);
    }
    if hits == 1 {
        match found {
            Some(a) => {
                proof {
                    assert forall|k: int|
                        0 <= k < all.len() && is_fat_jar(all[k]) implies all[k] == a@ by {
                        lemma_fat_jar_count_one_unique(all, found_idx, k);
                    }
                }
                Ok(a)
            },
            None => Err(CompilerError::ArtifactNotFound),
        }
    } else {
        Err(CompilerError::ArtifactNotFound)
    }
}

/// Evaluates the captured result of one external build-tool run: success
/// is exit code zero; anything else fails with the full captured output.
pub fn gradle_build_result(exit_code: Option<i32>, stdout: String, stderr: String) -> (r:
    Result<(), CompilerError>)
    ensures
        r is Ok <==> build_succeeded(exit_code),
        r matches Err(e) ==> e matches CompilerError::CompilationFailed {
            stdout: out,
            stderr: err,
        } && out@ == stdout@ && err@ == stderr@,
{
    match exit_code {
        Some(code) if code == 0 => Ok(()),
        _ => Err(CompilerError::CompilationFailed { stdout, stderr }),
    }
}

/// The module label `{owner}/{name}` read back from a target path: the
/// last path component, split at dashes, its first two parts with any
/// trailing `.jar` stripped.
pub open spec fn spec_mod_name(target: Seq<char>) -> Seq<char> {
    let comps = split_seq(normalize_slashes_spec(target), '/');
    let ending = split_seq(comps.last(), '-');
    strip_suffix_spec(ending[0], ".jar"@) + "/"@ + strip_suffix_spec(ending[1], ".jar"@)
}

/// A target path yields a module label exactly when its last path
/// component has at least two dash-separated parts.
pub open spec fn mod_name_defined(target: Seq<char>) -> bool {
    split_seq(split_seq(normalize_slashes_spec(target), '/').last(), '-').len() >= 2
}

/// One unit of compile work: a source working directory, the target
/// artifact path, and the module label derived from the target path for
/// reporting.
pub struct ModuleCompiler {
    pub source_dir: String,
    pub target_dir: String,
    pub mod_name: String,
}

impl ModuleCompiler {
    /// Builds a compile unit, deriving the module label from the target
    /// path.
    pub fn new(source_dir: String, target_dir: String) -> (r: Self)
        requires
            mod_name_defined(target_dir@),
        ensures
            r.source_dir == source_dir,
            r.target_dir == target_dir,
            r.mod_name@ == spec_mod_name(target_dir@),
    {
        let normalized = normalize_slashes(target_dir.as_str());
        let comps = split_str(normalized.as_str(), '/');
        proof {
            lemma_split_nonempty(normalized@, '/');
        }
        let last: &String = &comps[comps.len() - 1];
        let ending = split_str(last.as_str(), '-');
        let first = strip_suffix(ending[0].as_str(), ".jar");
        let second = strip_suffix(ending[1].as_str(), ".jar");
        let mut mod_name = first;
        mod_name.append("/");
        mod_name.append(second.as_str());
        Self { source_dir, target_dir, mod_name }
    }

    /// Whether the given working-directory entries mark a gradle
    /// project.
    pub fn is_gradle(&self, entries: &Vec<String>) -> (r: bool)
        ensures
            r == (spec_detect(entries.deep_view()) is Some),
    {
        detect(entries).is_some()
    }

    /// The compile-step decision for this unit, over the collaborator
    /// answers: the working-directory entries, the captured build-tool
    /// result, and the build output entries. Returns the located
    /// artifact entry on success.
    pub fn compile(
        &self,
        entries: &Vec<String>,
        exit_code: Option<i32>,
        stdout: String,
        stderr: String,
        libs: &Vec<String>,
    ) -> (r: Result<String, CompilerError>)
        ensures
            spec_detect(entries.deep_view()) is None <==> r == Err::<String, CompilerError>(
                CompilerError::UnsupportedProject,
            ),
            spec_detect(entries.deep_view()) is Some && !build_succeeded(exit_code) ==> (
            r matches Err(e) && e matches CompilerError::CompilationFailed {
                stdout: out,
                stderr: err,
            } && out@ == stdout@ && err@ == stderr@),
            r is Ok <==> spec_detect(entries.deep_view()) is Some && build_succeeded(
                exit_code,
            ) && fat_jar_count(libs.deep_view()) == 1,
            r matches Ok(a) ==> is_fat_jar(a@) && (exists|i: int|
                0 <= i < libs.deep_view().len() && libs.deep_view()[i] == a@),
            r matches Ok(a) ==> (forall|k: int|
                0 <= k < libs.deep_view().len() && is_fat_jar(libs.deep_view()[k])
                    ==> libs.deep_view()[k] == a@),
            spec_detect(entries.deep_view()) is Some && build_succeeded(exit_code)
                && fat_jar_count(libs.deep_view()) != 1 ==> r == Err::<String, CompilerError>(
                CompilerError::ArtifactNotFound,
            ),
    {
        match detect(entries) {
            None => Err(CompilerError::UnsupportedProject),
            Some(BuildSystemKind::Gradle) => {
                let strategy = GradleCompiler::new(self);
                match strategy.compile(exit_code, stdout, stderr) {
                    Err(e) => Err(e),
                    Ok(()) => strategy.locate_artifact(libs),
                }
            },
        }
    }
}

/// The gradle build strategy over one compile unit.
pub struct GradleCompiler<'a> {
    pub cmp: &'a ModuleCompiler,
}

impl<'a> GradleCompiler<'a> {
    /// Builds the strategy for one compile unit.
    pub fn new(cmp: &'a ModuleCompiler) -> (r: Self)
        ensures
            r.cmp == cmp,
    {
        Self { cmp }
    }

    /// Evaluates the captured result of the gradle run for this unit.
    pub fn compile(&self, exit_code: Option<i32>, stdout: String, stderr: String) -> (r:
        Result<(), CompilerError>)
        ensures
            r is Ok <==> build_succeeded(exit_code),
            r matches Err(e) ==> e matches CompilerError::CompilationFailed {
                stdout: out,
                stderr: err,
            } && out@ == stdout@ && err@ == stderr@,
    {
        gradle_build_result(exit_code, stdout, stderr)
    }

    /// Locates the artifact among the entries of the strategy's build
    /// output directory.
    pub fn locate_artifact(&self, libs: &Vec<String>) -> (r: Result<String, CompilerError>)
        ensures
            r is Ok <==> fat_jar_count(libs.deep_view()) == 1,
            r matches Ok(a) ==> is_fat_jar(a@) && (exists|i: int|
                0 <= i < libs.deep_view().len() && libs.deep_view()[i] == a@),
            r matches Ok(a) ==> (forall|k: int|
                0 <= k < libs.deep_view().len() && is_fat_jar(libs.deep_view()[k])
                    ==> libs.deep_view()[k] == a@),
            r matches Err(e) ==> e == CompilerError::ArtifactNotFound,
    {
        locate_fat_jar(libs)
    }
}

} // verus!
