//! Rendering of an embedding configuration as the Rust expression that
//! builds the same configuration in the embedding crate.

use crate::config::{EmbeddedPythonConfig, RawAllocator, RunMode, TerminfoResolution};
use crate::literal::{
    escaped, push_char, join_strings, joined, lemma_quoted_reads_back, push_quoted, quoted, read_literal,
};
use vstd::prelude::*;

verus! {

/// The text of each item of a vector of strings.
pub open spec fn string_views(v: Vec<String>) -> Seq<Seq<char>> {
    v@.map_values(|p: String| p@)
}

/// The text of each item of an optional string.
pub open spec fn opt_view(o: Option<String>) -> Option<Seq<char>> {
    match o {
        Some(s) => Some(s@),
        None => None,
    }
}

pub open spec fn profile_text(isolated: bool) -> Seq<char> {
    if isolated {
        "pyembed::PythonInterpreterProfile::Isolated"@
    } else {
        "pyembed::PythonInterpreterProfile::Python"@
    }
}

fn profile_case(isolated: bool) -> (r: &'static str)
    ensures
        r@ == profile_text(isolated),
{
    if isolated {
        "pyembed::PythonInterpreterProfile::Isolated"
    } else {
        "pyembed::PythonInterpreterProfile::Python"
    }
}

/// The optimization level case: levels outside 0, 1 and 2 fall back to 2.
pub open spec fn optimization_case(level: i64) -> Seq<char> {
    if level == 0 {
        "pyembed::OptimizationLevel::Zero"@
    } else if level == 1 {
        "pyembed::OptimizationLevel::One"@
    } else {
        "pyembed::OptimizationLevel::Two"@
    }
}

pub fn optimization_level_case(level: i64) -> (r: &'static str)
    ensures
        r@ == optimization_case(level),
{
    match level {
        0 => "pyembed::OptimizationLevel::Zero",
        1 => "pyembed::OptimizationLevel::One",
        _ => "pyembed::OptimizationLevel::Two",
    }
}

/// The bytes warning case: levels outside 0, 1 and 2 fall back to raising.
pub open spec fn bytes_warning_case(level: i32) -> Seq<char> {
    if level == 0 {
        "pyembed::BytesWarning::None"@
    } else if level == 1 {
        "pyembed::BytesWarning::Warn"@
    } else {
        "pyembed::BytesWarning::Raise"@
    }
}

pub fn bytes_warning_level_case(level: i32) -> (r: &'static str)
    ensures
        r@ == bytes_warning_case(level),
{
    match level {
        0 => "pyembed::BytesWarning::None",
        1 => "pyembed::BytesWarning::Warn",
        _ => "pyembed::BytesWarning::Raise",
    }
}

pub open spec fn flag(b: bool) -> Seq<char> {
    if b {
        "true"@
    } else {
        "false"@
    }
}

fn flag_case(b: bool) -> (r: &'static str)
    ensures
        r@ == flag(b),
{
    if b {
        "true"
    } else {
        "false"
    }
}

pub open spec fn allocator_text(a: RawAllocator) -> Seq<char> {
    match a {
        RawAllocator::Jemalloc => "pyembed::PythonRawAllocator::jemalloc()"@,
        RawAllocator::Rust => "pyembed::PythonRawAllocator::rust()"@,
        RawAllocator::System => "pyembed::PythonRawAllocator::system()"@,
    }
}

fn allocator_case(a: RawAllocator) -> (r: &'static str)
    ensures
        r@ == allocator_text(a),
{
    match a {
        RawAllocator::Jemalloc => "pyembed::PythonRawAllocator::jemalloc()",
        RawAllocator::Rust => "pyembed::PythonRawAllocator::rust()",
        RawAllocator::System => "pyembed::PythonRawAllocator::system()",
    }
}

/// An optional string slice: `None`, or `Some("...")`.
pub open spec fn optional_str_literal(o: Option<Seq<char>>) -> Seq<char> {
    match o {
        Some(s) => "Some("@ + quoted(s) + ")"@,
        None => "None"@,
    }
}

fn push_optional_str(out: &mut String, o: &Option<String>)
    ensures
        final(out)@ == old(out)@ + optional_str_literal(opt_view(*o)),
{
    match o {
        Some(s) => {
            out.append("Some(");
            push_quoted(out, s.as_str());
            out.append(")");
        },
        None => {
            out.append("None");
        },
    }
}

/// An optional owned string: `None`, or `Some("...".to_string())`.
pub open spec fn optional_string_literal(o: Option<Seq<char>>) -> Seq<char> {
    match o {
        Some(s) => "Some("@ + quoted(s) + ".to_string())"@,
        None => "None"@,
    }
}

fn push_optional_string(out: &mut String, o: &Option<String>)
    ensures
        final(out)@ == old(out)@ + optional_string_literal(opt_view(*o)),
{
    match o {
        Some(s) => {
            out.append("Some(");
            push_quoted(out, s.as_str());
            out.append(".to_string())");
        },
        None => {
            out.append("None");
        },
    }
}

/// One module search path as a path value.
pub open spec fn path_buf_literal(p: Seq<char>) -> Seq<char> {
    "std::path::PathBuf::from("@ + quoted(p) + ")"@
}

/// The module search paths: `None` where there are none, else the paths in
/// order as a vector.
pub open spec fn search_paths_literal(paths: Seq<Seq<char>>) -> Seq<char> {
    if paths.len() == 0 {
        "None"@
    } else {
        "Some(vec!["@ + joined(paths.map_values(|p: Seq<char>| path_buf_literal(p)), ", "@)
            + "])"@
    }
}

fn push_search_paths(out: &mut String, paths: &Vec<String>)
    ensures
        final(out)@ == old(out)@ + search_paths_literal(string_views(*paths)),
{
    let ghost views = paths@.map_values(|p: String| p@);
    if paths.len() == 0 {
        out.append("None");
        return ;
    }
    let mut items: Vec<String> = Vec::new();
    let mut i: usize = 0;
    while i < paths.len()
        invariant
            i <= paths@.len(),
            views == paths@.map_values(|p: String| p@),
            items@.len() == i,
            forall|j: int| 0 <= j < i ==> #[trigger] items@[j]@ == path_buf_literal(views[j]),
        decreases paths@.len() - i,
    {
        let mut item = String::from_str("std::path::PathBuf::from(");
        push_quoted(&mut item, paths[i].as_str());
        item.append(")");
        items.push(item);
        i = i + 1;
    }
    assert(items@.map_values(|p: String| p@) =~= views.map_values(
        |p: Seq<char>| path_buf_literal(p),
    ));
    let body = join_strings(&items, ", ");
    out.append("Some(vec![");
    out.append(body.as_str());
    out.append("])");
}

pub open spec fn terminfo_literal(t: TerminfoResolution) -> Seq<char> {
    match t {
        TerminfoResolution::Dynamic => "pyembed::TerminfoResolution::Dynamic"@,
        TerminfoResolution::Disabled => "pyembed::TerminfoResolution::None"@,
        TerminfoResolution::Static(v) => "pyembed::TerminfoResolution::Static("@ + quoted(v@)
            + ".to_string())"@,
    }
}

fn push_terminfo(out: &mut String, t: &TerminfoResolution)
    ensures
        final(out)@ == old(out)@ + terminfo_literal(*t),
{
    match t {
        TerminfoResolution::Dynamic => {
            out.append("pyembed::TerminfoResolution::Dynamic");
        },
        TerminfoResolution::Disabled => {
            out.append("pyembed::TerminfoResolution::None");
        },
        TerminfoResolution::Static(v) => {
            out.append("pyembed::TerminfoResolution::Static(");
            push_quoted(out, v.as_str());
            out.append(".to_string())");
        },
    }
}

/// The common start of every run mode case.
pub open spec fn run_mode_prefix() -> Seq<char> {
    "pyembed::PythonRunMode::"@
}

/// The name of the run mode case of each variant, in declaration order.
pub open spec fn run_mode_name(i: int) -> Seq<char> {
    if i == 0 {
        "None"@
    } else if i == 1 {
        "Repl"@
    } else if i == 2 {
        "Module"@
    } else if i == 3 {
        "Eval"@
    } else {
        "File"@
    }
}

/// The marker of each run mode case: its full path.
pub open spec fn run_mode_marker(i: int) -> Seq<char> {
    run_mode_prefix() + run_mode_name(i)
}

pub open spec fn run_mode_index(m: RunMode) -> int {
    match m {
        RunMode::Noop => 0,
        RunMode::Repl => 1,
        RunMode::Module { .. } => 2,
        RunMode::Eval { .. } => 3,
        RunMode::File { .. } => 4,
    }
}

/// The payload of a run mode, where its variant has one.
pub open spec fn run_mode_payload(m: RunMode) -> Option<Seq<char>> {
    match m {
        RunMode::Noop => None,
        RunMode::Repl => None,
        RunMode::Module { module } => Some(module@),
        RunMode::Eval { code } => Some(code@),
        RunMode::File { path } => Some(path@),
    }
}

/// What stands between a run mode's marker and the opening quote of its
/// payload, and what follows the closing quote.
pub open spec fn run_mode_payload_frame(i: int) -> (Seq<char>, Seq<char>) {
    if i == 2 {
        (" { module: "@, ".to_string() }"@)
    } else if i == 3 {
        (" { code: "@, ".to_string() }"@)
    } else {
        (" { path: std::path::PathBuf::from("@, ") }"@)
    }
}

pub open spec fn run_literal(m: RunMode) -> Seq<char> {
    let i = run_mode_index(m);
    match run_mode_payload(m) {
        None => run_mode_marker(i),
        Some(p) => run_mode_marker(i) + run_mode_payload_frame(i).0 + quoted(p)
            + run_mode_payload_frame(i).1,
    }
}

fn push_run_mode(out: &mut String, m: &RunMode)
    ensures
        final(out)@ == old(out)@ + run_literal(*m),
{
    out.append("pyembed::PythonRunMode::");
    match m {
        RunMode::Noop => {
            out.append("None");
        },
        RunMode::Repl => {
            out.append("Repl");
        },
        RunMode::Module { module } => {
            out.append("Module");
            out.append(" { module: ");
            push_quoted(out, module.as_str());
            out.append(".to_string() }");
        },
        RunMode::Eval { code } => {
            out.append("Eval");
            out.append(" { code: ");
            push_quoted(out, code.as_str());
            out.append(".to_string() }");
        },
        RunMode::File { path } => {
            out.append("File");
            out.append(" { path: std::path::PathBuf::from(");
            push_quoted(out, path.as_str());
            out.append(") }");
        },
    }
    assert(out@ =~= old(out)@ + run_literal(*m));
}

/// An optimization level outside 0, 1 and 2 renders exactly as level 2 does.
pub proof fn lemma_optimization_level_fallback(c: EmbeddedPythonConfig, path: Seq<char>)
    requires
        c.optimize_level < 0 || c.optimize_level > 2,
    ensures
        config_source(c, path) == config_source(EmbeddedPythonConfig { optimize_level: 2, ..c }, path),
{
    let c2 = EmbeddedPythonConfig { optimize_level: 2, ..c };
    assert(optimization_case(c.optimize_level) == optimization_case(c2.optimize_level));
}

/// A bytes warning level outside 0, 1 and 2 renders exactly as level 2 does.
pub proof fn lemma_bytes_warning_fallback(c: EmbeddedPythonConfig, path: Seq<char>)
    requires
        c.bytes_warning < 0 || c.bytes_warning > 2,
    ensures
        config_source(c, path) == config_source(EmbeddedPythonConfig { bytes_warning: 2, ..c }, path),
{
    let c2 = EmbeddedPythonConfig { bytes_warning: 2, ..c };
    assert(bytes_warning_case(c.bytes_warning) == bytes_warning_case(c2.bytes_warning));
}

/// The rendered run mode starts with the marker of its own variant and with
/// no other of the five, and its payload, where it has one, reads back from
/// the quoted literal after the marker exactly as it was given.
pub proof fn lemma_run_mode_rendering(m: RunMode)
    ensures
        forall|i: int|
            0 <= i < 5 ==> (#[trigger] run_mode_marker(i).is_prefix_of(run_literal(m)) <==> i
                == run_mode_index(m)),
        run_mode_payload(m) is None ==> run_literal(m) == run_mode_marker(run_mode_index(m)),
        run_mode_payload(m) matches Some(p) ==> read_literal(
            run_literal(m).skip(
                run_mode_marker(run_mode_index(m)).len() + run_mode_payload_frame(
                    run_mode_index(m),
                ).0.len() + 1 as int,
            ),
        ) == Some((p, run_mode_payload_frame(run_mode_index(m)).1)),
{
    reveal_strlit("pyembed::PythonRunMode::");
    reveal_strlit("None");
    reveal_strlit("Repl");
    reveal_strlit("Module");
    reveal_strlit("Eval");
    reveal_strlit("File");
    let k = run_mode_index(m);
    let l = run_literal(m);
    let mk = run_mode_marker(k);
    assert(l.subrange(0, mk.len() as int) =~= mk);
    assert forall|i: int| 0 <= i < 5 && i != k implies !run_mode_marker(i).is_prefix_of(l) by {
        assert(run_mode_marker(i)[24] == run_mode_name(i)[0]);
        assert(l[24] == mk[24]);
        assert(mk[24] == run_mode_name(k)[0]);
        if run_mode_marker(i).is_prefix_of(l) {
            assert(run_mode_marker(i)[24] == l.subrange(0, run_mode_marker(i).len() as int)[24]);
        }
    }
    if let Some(p) = run_mode_payload(m) {
        let frame = run_mode_payload_frame(k);
        let n = mk.len() + frame.0.len() + 1 as int;
        assert(l =~= (mk + frame.0 + seq!['"']) + (escaped(p) + seq!['"'] + frame.1));
        assert(l.skip(n) =~= escaped(p) + seq!['"'] + frame.1);
        lemma_quoted_reads_back(p, frame.1);
    }
}

/// The rendered configuration, from the rendered text of each of its fields.
#[verifier::opaque]
pub open spec fn config_text(
    profile: Seq<char>,
    stdio_encoding: Seq<char>,
    stdio_errors: Seq<char>,
    optimization_level: Seq<char>,
    module_search_paths: Seq<char>,
    bytes_warning: Seq<char>,
    site_import: Seq<char>,
    user_site_directory: Seq<char>,
    use_environment: Seq<char>,
    inspect: Seq<char>,
    interactive: Seq<char>,
    legacy_windows_fs_encoding: Seq<char>,
    legacy_windows_stdio: Seq<char>,
    write_bytecode: Seq<char>,
    buffered_stdio: Seq<char>,
    parser_debug: Seq<char>,
    quiet: Seq<char>,
    verbose: Seq<char>,
    raw_allocator: Seq<char>,
    filesystem_importer: Seq<char>,
    packed_resources: Seq<char>,
    sys_frozen: Seq<char>,
    sys_meipass: Seq<char>,
    terminfo_resolution: Seq<char>,
    write_modules_directory_env: Seq<char>,
    run: Seq<char>,
) -> Seq<char> {
    "pyembed::OxidizedPythonInterpreterConfig {\n    \
        interpreter_config: pyembed::PythonInterpreterConfig {\n        \
        profile: "@
        + profile
        + ",\n        \
        allocator: None,\n        \
        configure_locale: None,\n        \
        coerce_c_locale: None,\n        \
        coerce_c_locale_warn: None,\n        \
        development_mode: None,\n        \
        isolated: None,\n        \
        parse_argv: None,\n        \
        utf8_mode: None,\n        \
        argv: None,\n        \
        base_exec_prefix: None,\n        \
        base_executable: None,\n        \
        base_prefix: None,\n        \
        check_hash_pycs_mode: None,\n        \
        configure_c_stdio: None,\n        \
        dump_refs: None,\n        \
        exec_prefix: None,\n        \
        executable: None,\n        \
        fault_handler: None,\n        \
        filesystem_encoding: None,\n        \
        filesystem_errors: None,\n        \
        hash_seed: None,\n        \
        home: None,\n        \
        import_time: None,\n        \
        install_signal_handlers: None,\n        \
        malloc_stats: None,\n        \
        prefix: None,\n        \
        program_name: None,\n        \
        python_path_env: None,\n        \
        pathconfig_warnings: None,\n        \
        pycache_prefix: None,\n        \
        run_command: None,\n        \
        run_filename: None,\n        \
        run_module: None,\n        \
        tracemalloc: None,\n        \
        warn_options: None,\n        \
        show_alloc_count: None,\n        \
        show_ref_count: None,\n        \
        skip_first_source_line: None,\n        \
        x_options: None,\n        \
        stdio_encoding: "@
        + stdio_encoding
        + ",\n        stdio_errors: "@
        + stdio_errors
        + ",\n        optimization_level: Some("@
        + optimization_level
        + "),\n        module_search_paths: "@
        + module_search_paths
        + ",\n        bytes_warning: Some("@
        + bytes_warning
        + "),\n        site_import: Some("@
        + site_import
        + "),\n        user_site_directory: Some("@
        + user_site_directory
        + "),\n        use_environment: Some("@
        + use_environment
        + "),\n        inspect: Some("@
        + inspect
        + "),\n        interactive: Some("@
        + interactive
        + "),\n        legacy_windows_fs_encoding: Some("@
        + legacy_windows_fs_encoding
        + "),\n        legacy_windows_stdio: Some("@
        + legacy_windows_stdio
        + "),\n        write_bytecode: Some("@
        + write_bytecode
        + "),\n        buffered_stdio: Some("@
        + buffered_stdio
        + "),\n        parser_debug: Some("@
        + parser_debug
        + "),\n        quiet: Some("@
        + quiet
        + "),\n        verbose: Some("@
        + verbose
        + "),\n        },\n    raw_allocator: Some("@
        + raw_allocator
        + "),\n    oxidized_importer: true,\n    filesystem_importer: "@
        + filesystem_importer
        + ",\n    packed_resources: Some(include_bytes!("@
        + packed_resources
        + ")),\n    extra_extension_modules: None,\n    argvb: false,\n    sys_frozen: "@
        + sys_frozen
        + ",\n    sys_meipass: "@
        + sys_meipass
        + ",\n    terminfo_resolution: "@
        + terminfo_resolution
        + ",\n    write_modules_directory_env: "@
        + write_modules_directory_env
        + ",\n    run: "@
        + run
        + ",\n}\n"@
}

/// The source text of the expression that builds the interpreter
/// configuration `c`, reading its packed resources from `path` when the
/// embedding crate is compiled.
pub open spec fn config_source(c: EmbeddedPythonConfig, path: Seq<char>) -> Seq<char> {
    config_text(
        profile_text(c.isolated),
        optional_str_literal(opt_view(c.stdio_encoding_name)),
        optional_str_literal(opt_view(c.stdio_encoding_errors)),
        optimization_case(c.optimize_level),
        search_paths_literal(string_views(c.sys_paths)),
        bytes_warning_case(c.bytes_warning),
        flag(c.site_import),
        flag(c.user_site_directory),
        flag(!c.ignore_environment),
        flag(c.inspect),
        flag(c.interactive),
        flag(c.legacy_windows_fs_encoding),
        flag(c.legacy_windows_stdio),
        flag(c.write_bytecode),
        flag(!c.unbuffered_stdio),
        flag(c.parser_debug),
        flag(c.quiet),
        flag(c.verbose != 0),
        allocator_text(c.raw_allocator),
        flag(c.filesystem_importer),
        quoted(path),
        flag(c.sys_frozen),
        flag(c.sys_meipass),
        terminfo_literal(c.terminfo_resolution),
        optional_string_literal(opt_view(c.write_modules_directory_env)),
        run_literal(c.run_mode),
    )
}

/// Obtain the Rust source code that constructs an
/// `OxidizedPythonInterpreterConfig` equal to `embedded`, with its packed
/// resources read from `embedded_resources_path`.
#[verifier::rlimit(100)]
pub fn derive_python_config(embedded: &EmbeddedPythonConfig, embedded_resources_path: &str) -> (r:
    String)
    ensures
        r@ == config_source(*embedded, embedded_resources_path@),
{
    reveal(config_text);
    let mut out = String::from_str("pyembed::OxidizedPythonInterpreterConfig {\n    \
        interpreter_config: pyembed::PythonInterpreterConfig {\n        \
        profile: ");
    out.append(profile_case(embedded.isolated));
    out.append(",\n        \
        allocator: None,\n        \
        configure_locale: None,\n        \
        coerce_c_locale: None,\n        \
        coerce_c_locale_warn: None,\n        \
        development_mode: None,\n        \
        isolated: None,\n        \
        parse_argv: None,\n        \
        utf8_mode: None,\n        \
        argv: None,\n        \
        base_exec_prefix: None,\n        \
        base_executable: None,\n        \
        base_prefix: None,\n        \
        check_hash_pycs_mode: None,\n        \
        configure_c_stdio: None,\n        \
        dump_refs: None,\n        \
        exec_prefix: None,\n        \
        executable: None,\n        \
        fault_handler: None,\n        \
        filesystem_encoding: None,\n        \
        filesystem_errors: None,\n        \
        hash_seed: None,\n        \
        home: None,\n        \
        import_time: None,\n        \
        install_signal_handlers: None,\n        \
        malloc_stats: None,\n        \
        prefix: None,\n        \
        program_name: None,\n        \
        python_path_env: None,\n        \
        pathconfig_warnings: None,\n        \
        pycache_prefix: None,\n        \
        run_command: None,\n        \
        run_filename: None,\n        \
        run_module: None,\n        \
        tracemalloc: None,\n        \
        warn_options: None,\n        \
        show_alloc_count: None,\n        \
        show_ref_count: None,\n        \
        skip_first_source_line: None,\n        \
        x_options: None,\n        \
        stdio_encoding: ");
    push_optional_str(&mut out, &embedded.stdio_encoding_name);
    out.append(",\n        stdio_errors: ");
    push_optional_str(&mut out, &embedded.stdio_encoding_errors);
    out.append(",\n        optimization_level: Some(");
    out.append(optimization_level_case(embedded.optimize_level));
    out.append("),\n        module_search_paths: ");
    push_search_paths(&mut out, &embedded.sys_paths);
    out.append(",\n        bytes_warning: Some(");
    out.append(bytes_warning_level_case(embedded.bytes_warning));
    out.append("),\n        site_import: Some(");
    out.append(flag_case(embedded.site_import));
    out.append("),\n        user_site_directory: Some(");
    out.append(flag_case(embedded.user_site_directory));
    out.append("),\n        use_environment: Some(");
    out.append(flag_case(!embedded.ignore_environment));
    out.append("),\n        inspect: Some(");
    out.append(flag_case(embedded.inspect));
    out.append("),\n        interactive: Some(");
    out.append(flag_case(embedded.interactive));
    out.append("),\n        legacy_windows_fs_encoding: Some(");
    out.append(flag_case(embedded.legacy_windows_fs_encoding));
    out.append("),\n        legacy_windows_stdio: Some(");
    out.append(flag_case(embedded.legacy_windows_stdio));
    out.append("),\n        write_bytecode: Some(");
    out.append(flag_case(embedded.write_bytecode));
    out.append("),\n        buffered_stdio: Some(");
    out.append(flag_case(!embedded.unbuffered_stdio));
    out.append("),\n        parser_debug: Some(");
    out.append(flag_case(embedded.parser_debug));
    out.append("),\n        quiet: Some(");
    out.append(flag_case(embedded.quiet));
    out.append("),\n        verbose: Some(");
    out.append(flag_case(embedded.verbose != 0));
    out.append("),\n        },\n    raw_allocator: Some(");
    out.append(allocator_case(embedded.raw_allocator));
    out.append("),\n    oxidized_importer: true,\n    filesystem_importer: ");
    out.append(flag_case(embedded.filesystem_importer));
    out.append(",\n    packed_resources: Some(include_bytes!(");
    push_quoted(&mut out, embedded_resources_path);
    out.append(")),\n    extra_extension_modules: None,\n    argvb: false,\n    sys_frozen: ");
    out.append(flag_case(embedded.sys_frozen));
    out.append(",\n    sys_meipass: ");
    out.append(flag_case(embedded.sys_meipass));
    out.append(",\n    terminfo_resolution: ");
    push_terminfo(&mut out, &embedded.terminfo_resolution);
    out.append(",\n    write_modules_directory_env: ");
    push_optional_string(&mut out, &embedded.write_modules_directory_env);
    out.append(",\n    run: ");
    push_run_mode(&mut out, &embedded.run_mode);
    out.append(",\n}\n");
    out
}

/// The lines of `s`: the pieces between its newlines, one more than there
/// are newlines.
pub open spec fn lines(s: Seq<char>) -> Seq<Seq<char>>
    decreases s.len(),
{
    if s.len() == 0 {
        seq![Seq::empty()]
    } else {
        let ls = lines(s.drop_last());
        if s.last() == '\n' {
            ls.push(Seq::empty())
        } else {
            ls.update(ls.len() - 1, ls.last().push(s.last()))
        }
    }
}

/// `s` with four spaces before each of its lines.
pub open spec fn indented(s: Seq<char>) -> Seq<char> {
    joined(lines(s).map_values(|l: Seq<char>| "    "@ + l), "\n"@)
}

/// A source file that defines `default_python_config`, a documented
/// function whose body is `body`, indented.
pub open spec fn default_config_file(body: Seq<char>) -> Seq<char> {
    "/// Obtain the default Python configuration\n\
     ///\n\
     /// The crate is compiled with a default Python configuration embedded\n\
     /// in the crate. This function will return an instance of that\n\
     /// configuration.\n\
     pub fn default_python_config<'a>() -> pyembed::OxidizedPythonInterpreterConfig<'a> {\n"@
        + indented(body) + "\n}\n"@
}

/// The lines of `s`, in order.
fn split_lines(s: &str) -> (r: Vec<String>)
    ensures
        string_views(r) == lines(s@),
{
    let n = s.unicode_len();
    let mut done: Vec<String> = Vec::new();
    let mut cur = String::new();
    let mut i: usize = 0;
    assert(s@.subrange(0, 0) =~= Seq::<char>::empty());
    assert(string_views(done).push(cur@) =~= lines(s@.subrange(0, 0)));
    while i < n
        invariant
            n == s@.len(),
            i <= n,
            string_views(done).push(cur@) == lines(s@.subrange(0, i as int)),
        decreases n - i,
    {
        let c = s.get_char(i);
        let ghost pre = s@.subrange(0, i as int);
        let ghost old_done = done@;
        let ghost old_cur = cur@;
        proof {
            assert(s@.subrange(0, i + 1).drop_last() =~= pre);
            assert(s@.subrange(0, i + 1).last() == c);
        }
        if c == '\n' {
            let line = cur;
            cur = String::new();
            done.push(line);
            proof {
                assert(string_views(done) =~= old_done.map_values(|p: String| p@).push(old_cur));
            }
        } else {
            push_char(&mut cur, c);
            proof {
                let ls = lines(pre);
                assert(string_views(done).push(cur@) =~= ls.update(
                    ls.len() - 1,
                    ls.last().push(c),
                ));
            }
        }
        i = i + 1;
    }
    assert(s@.subrange(0, n as int) =~= s@);
    let ghost before = done@;
    done.push(cur);
    assert(string_views(done) =~= before.map_values(|p: String| p@).push(cur@));
    done
}

/// Source text for a file that defines `default_python_config`, a documented
/// function whose body is `python_config_rs`, each of its lines indented by
/// four spaces.
pub fn default_python_config_source(python_config_rs: &str) -> (r: String)
    ensures
        r@ == default_config_file(python_config_rs@),
{
    let ls = split_lines(python_config_rs);
    let ghost views = string_views(ls);
    let mut items: Vec<String> = Vec::new();
    let mut i: usize = 0;
    while i < ls.len()
        invariant
            i <= ls@.len(),
            views == string_views(ls),
            items@.len() == i,
            forall|j: int| 0 <= j < i ==> #[trigger] items@[j]@ == "    "@ + views[j],
        decreases ls@.len() - i,
    {
        let mut item = String::from_str("    ");
        item.append(ls[i].as_str());
        items.push(item);
        i = i + 1;
    }
    assert(items@.map_values(|p: String| p@) =~= views.map_values(|l: Seq<char>| "    "@ + l));
    let body = join_strings(&items, "\n");
    let mut out = String::from_str(
        "/// Obtain the default Python configuration\n\
         ///\n\
         /// The crate is compiled with a default Python configuration embedded\n\
         /// in the crate. This function will return an instance of that\n\
         /// configuration.\n\
         pub fn default_python_config<'a>() -> pyembed::OxidizedPythonInterpreterConfig<'a> {\n",
    );
    out.append(body.as_str());
    out.append("\n}\n");
    out
}

} // verus!
