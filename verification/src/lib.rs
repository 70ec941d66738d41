//! Build orchestration engine: derives a canonical artifact identity from a
//! repository locator, classifies which build system a fetched working
//! directory uses, evaluates build-tool results, locates the produced
//! artifact, and drives the per-repository job pipeline with isolated
//! failure handling. All decisions are pure and verified; the surrounding
//! process (cloning, subprocesses, filesystem access) supplies their inputs.

pub mod compiler;
pub mod config;
pub mod git;
pub mod job;
pub mod namer;
pub mod strutil;
