use pyembed_config::config::{EmbeddedPythonConfig, RawAllocator, RunMode, TerminfoResolution};
use pyembed_config::pyembed::{
    bytes_warning_level_case, default_python_config_source, derive_python_config,
    optimization_level_case,
};

fn base_config() -> EmbeddedPythonConfig {
    EmbeddedPythonConfig {
        isolated: false,
        stdio_encoding_name: None,
        stdio_encoding_errors: None,
        optimize_level: 0,
        sys_paths: vec![],
        bytes_warning: 0,
        site_import: true,
        user_site_directory: false,
        ignore_environment: true,
        inspect: false,
        interactive: false,
        legacy_windows_fs_encoding: false,
        legacy_windows_stdio: false,
        write_bytecode: false,
        unbuffered_stdio: false,
        parser_debug: false,
        quiet: false,
        verbose: 0,
        raw_allocator: RawAllocator::System,
        filesystem_importer: false,
        sys_frozen: false,
        sys_meipass: false,
        terminfo_resolution: TerminfoResolution::Dynamic,
        write_modules_directory_env: None,
        run_mode: RunMode::Repl,
    }
}

fn line_of<'a>(text: &'a str, key: &str) -> &'a str {
    let lines: Vec<&str> = text.lines().filter(|l| l.trim_start().starts_with(key)).collect();
    assert_eq!(lines.len(), 1, "exactly one line for {}", key);
    lines[0].trim()
}

#[test]
fn end_to_end_isolated_file_run() {
    let mut c = base_config();
    c.isolated = true;
    c.optimize_level = 5;
    c.run_mode = RunMode::File { path: "/app/main.dat".to_string() };
    let out = derive_python_config(&c, "/build/packed-resources");
    assert_eq!(line_of(&out, "profile:"), "profile: pyembed::PythonInterpreterProfile::Isolated,");
    assert_eq!(
        line_of(&out, "optimization_level:"),
        "optimization_level: Some(pyembed::OptimizationLevel::Two),"
    );
    assert_eq!(line_of(&out, "module_search_paths:"), "module_search_paths: None,");
    assert_eq!(
        line_of(&out, "run:"),
        "run: pyembed::PythonRunMode::File { path: std::path::PathBuf::from(\"/app/main.dat\") },"
    );
}

#[test]
fn optimization_levels_in_and_out_of_domain() {
    assert_eq!(optimization_level_case(0), "pyembed::OptimizationLevel::Zero");
    assert_eq!(optimization_level_case(1), "pyembed::OptimizationLevel::One");
    assert_eq!(optimization_level_case(2), "pyembed::OptimizationLevel::Two");
    for level in [-1i64, 3, 5, i64::MIN, i64::MAX] {
        assert_eq!(optimization_level_case(level), "pyembed::OptimizationLevel::Two");
        let mut c = base_config();
        c.optimize_level = level;
        let mut c2 = base_config();
        c2.optimize_level = 2;
        assert_eq!(derive_python_config(&c, "r"), derive_python_config(&c2, "r"));
    }
}

#[test]
fn bytes_warning_levels() {
    assert_eq!(bytes_warning_level_case(0), "pyembed::BytesWarning::None");
    assert_eq!(bytes_warning_level_case(1), "pyembed::BytesWarning::Warn");
    assert_eq!(bytes_warning_level_case(2), "pyembed::BytesWarning::Raise");
    assert_eq!(bytes_warning_level_case(7), "pyembed::BytesWarning::Raise");
    assert_eq!(bytes_warning_level_case(-3), "pyembed::BytesWarning::Raise");
}

#[test]
fn each_run_mode_has_one_marker() {
    let markers = ["None", "Repl", "Module", "Eval", "File"];
    let modes = vec![
        RunMode::Noop,
        RunMode::Repl,
        RunMode::Module { module: "app.main".to_string() },
        RunMode::Eval { code: "print(\"hi\")\n".to_string() },
        RunMode::File { path: "C:\\app\\main.py".to_string() },
    ];
    let expected = [
        "run: pyembed::PythonRunMode::None,",
        "run: pyembed::PythonRunMode::Repl,",
        "run: pyembed::PythonRunMode::Module { module: \"app.main\".to_string() },",
        "run: pyembed::PythonRunMode::Eval { code: \"print(\\\"hi\\\")",
        "run: pyembed::PythonRunMode::File { path: std::path::PathBuf::from(\"C:\\\\app\\\\main.py\") },",
    ];
    for (i, m) in modes.into_iter().enumerate() {
        let mut c = base_config();
        c.run_mode = m;
        let out = derive_python_config(&c, "r");
        let run = line_of(&out, "run:");
        assert_eq!(run, expected[i]);
        for (j, name) in markers.iter().enumerate() {
            let marker = format!("pyembed::PythonRunMode::{}", name);
            assert_eq!(run["run: ".len()..].starts_with(&marker), i == j);
        }
    }
}

#[test]
fn strings_with_quotes_and_backslashes_are_escaped() {
    let mut c = base_config();
    c.stdio_encoding_name = Some("a\"b\\c\rd".to_string());
    c.stdio_encoding_errors = Some("strict".to_string());
    c.write_modules_directory_env = Some("\"###".to_string());
    c.terminfo_resolution = TerminfoResolution::Static("/usr/share/\"terminfo\"".to_string());
    let out = derive_python_config(&c, "C:\\out\\packed\"x");
    assert_eq!(line_of(&out, "stdio_encoding:"), "stdio_encoding: Some(\"a\\\"b\\\\c\\rd\"),");
    assert_eq!(line_of(&out, "stdio_errors:"), "stdio_errors: Some(\"strict\"),");
    assert_eq!(
        line_of(&out, "write_modules_directory_env:"),
        "write_modules_directory_env: Some(\"\\\"###\".to_string()),"
    );
    assert_eq!(
        line_of(&out, "terminfo_resolution:"),
        "terminfo_resolution: pyembed::TerminfoResolution::Static(\"/usr/share/\\\"terminfo\\\"\".to_string()),"
    );
    assert_eq!(
        line_of(&out, "packed_resources:"),
        "packed_resources: Some(include_bytes!(\"C:\\\\out\\\\packed\\\"x\")),"
    );
    assert!(!out.contains('\r'));
}

#[test]
fn search_paths_render_in_order() {
    let mut c = base_config();
    c.sys_paths = vec!["$ORIGIN/lib".to_string(), "/opt/py".to_string()];
    let out = derive_python_config(&c, "r");
    assert_eq!(
        line_of(&out, "module_search_paths:"),
        "module_search_paths: Some(vec![std::path::PathBuf::from(\"$ORIGIN/lib\"), std::path::PathBuf::from(\"/opt/py\")]),"
    );
    c.sys_paths = vec!["only".to_string()];
    let out = derive_python_config(&c, "r");
    assert_eq!(
        line_of(&out, "module_search_paths:"),
        "module_search_paths: Some(vec![std::path::PathBuf::from(\"only\")]),"
    );
}

#[test]
fn flags_and_allocator_render() {
    let mut c = base_config();
    c.verbose = 3;
    c.unbuffered_stdio = true;
    c.raw_allocator = RawAllocator::Jemalloc;
    c.terminfo_resolution = TerminfoResolution::Disabled;
    c.sys_frozen = true;
    let out = derive_python_config(&c, "r");
    assert_eq!(line_of(&out, "verbose:"), "verbose: Some(true),");
    assert_eq!(line_of(&out, "buffered_stdio:"), "buffered_stdio: Some(false),");
    assert_eq!(line_of(&out, "use_environment:"), "use_environment: Some(false),");
    assert_eq!(line_of(&out, "site_import:"), "site_import: Some(true),");
    assert_eq!(
        line_of(&out, "raw_allocator:"),
        "raw_allocator: Some(pyembed::PythonRawAllocator::jemalloc()),"
    );
    assert_eq!(line_of(&out, "terminfo_resolution:"), "terminfo_resolution: pyembed::TerminfoResolution::None,");
    assert_eq!(line_of(&out, "sys_frozen:"), "sys_frozen: true,");
    assert_eq!(line_of(&out, "sys_meipass:"), "sys_meipass: false,");
    assert!(out.starts_with("pyembed::OxidizedPythonInterpreterConfig {\n    interpreter_config: pyembed::PythonInterpreterConfig {\n        profile: pyembed::PythonInterpreterProfile::Python,\n        allocator: None,\n"));
    assert!(out.ends_with(",\n}\n"));
}

const DOC: &str = "/// Obtain the default Python configuration\n///\n/// The crate is compiled with a default Python configuration embedded\n/// in the crate. This function will return an instance of that\n/// configuration.\npub fn default_python_config<'a>() -> pyembed::OxidizedPythonInterpreterConfig<'a> {\n";

#[test]
fn default_config_file_indents_each_line() {
    assert_eq!(default_python_config_source("a\nb"), format!("{}    a\n    b\n}}\n", DOC));
    assert_eq!(default_python_config_source(""), format!("{}    \n}}\n", DOC));
    assert_eq!(default_python_config_source("x\n"), format!("{}    x\n    \n}}\n", DOC));
    assert_eq!(default_python_config_source("\n\n"), format!("{}    \n    \n    \n}}\n", DOC));
}
