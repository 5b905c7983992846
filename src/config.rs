//! The embedding configuration: how the interpreter is set up inside a
//! compiled executable.

use vstd::prelude::*;

verus! {

/// Which raw memory allocator the interpreter uses.
#[derive(Clone, Copy, Debug, PartialEq, Eq)]
pub enum RawAllocator {
    Jemalloc,
    Rust,
    System,
}

/// How the terminal capability database is located at run time.
#[derive(Clone, Debug)]
pub enum TerminfoResolution {
    /// Looked up dynamically on the running machine.
    Dynamic,
    /// Not resolved at all.
    Disabled,
    /// A fixed directory list embedded at build time.
    Static(String),
}

/// What the interpreter does once it has started. Each variant carries the
/// payload it needs and nothing else.
#[derive(Clone, Debug)]
pub enum RunMode {
    Noop,
    Repl,
    Module { module: String },
    Eval { code: String },
    File { path: String },
}

/// The embedding configuration of an interpreter.
#[derive(Clone, Debug)]
pub struct EmbeddedPythonConfig {
    pub isolated: bool,
    pub stdio_encoding_name: Option<String>,
    pub stdio_encoding_errors: Option<String>,
    /// Meaningful values are 0, 1 and 2; any other stands for 2.
    pub optimize_level: i64,
    /// Module search paths, in order; empty means that none are set.
    pub sys_paths: Vec<String>,
    /// Meaningful values are 0 (none), 1 (warn) and 2 (raise); any other
    /// stands for 2.
    pub bytes_warning: i32,
    pub site_import: bool,
    pub user_site_directory: bool,
    pub ignore_environment: bool,
    pub inspect: bool,
    pub interactive: bool,
    pub legacy_windows_fs_encoding: bool,
    pub legacy_windows_stdio: bool,
    pub write_bytecode: bool,
    pub unbuffered_stdio: bool,
    pub parser_debug: bool,
    pub quiet: bool,
    /// Only whether it is zero matters.
    pub verbose: i32,
    pub raw_allocator: RawAllocator,
    pub filesystem_importer: bool,
    pub sys_frozen: bool,
    pub sys_meipass: bool,
    pub terminfo_resolution: TerminfoResolution,
    /// Environment variable naming a directory to dump loaded modules into.
    pub write_modules_directory_env: Option<String>,
    pub run_mode: RunMode,
}

} // verus!
