use mcp_ast_grep::ast_grep_tools::AstGrepTools;
use mcp_ast_grep::binary_manager::BinaryManager;
use mcp_ast_grep::error::ToolErrorKind;
use mcp_ast_grep::path_resolver::{candidate_paths, resolve_path, root_path, WorkspaceRoot};

fn root(uri: &str, name: Option<&str>) -> WorkspaceRoot {
    WorkspaceRoot { uri: uri.to_string(), name: name.map(|n| n.to_string()) }
}

fn tools() -> AstGrepTools {
    let manager = BinaryManager::new(Some("/opt/server"), "linux", "x86_64").unwrap();
    AstGrepTools::new(manager, Err("Embedded catalog.json not found".to_string()))
}

#[test]
fn test_path_resolution() {
    let mut tools = tools();
    let cwd: Result<String, String> = Ok("/work/project".to_string());

    // an absolute path is taken as it is
    let result = tools.resolve_path("/tmp/test.rs", &cwd, &Vec::new()).unwrap();
    assert_eq!(result, "/tmp/test.rs");

    // a relative path without roots is taken from the working directory
    let result = tools.resolve_path("src/main.rs", &cwd, &Vec::new()).unwrap();
    assert_eq!(result, "/work/project/src/main.rs");

    // a relative path with roots is taken from the first root under which it exists
    tools.set_roots(vec![
        root("file:///work/project", Some("workspace")),
        root("file:///tmp", Some("temp")),
    ]);
    let result = tools.resolve_path("src/main.rs", &cwd, &vec![true, false]).unwrap();
    assert_eq!(result, "/work/project/src/main.rs");
}

#[test]
fn absolute_target_ignores_roots_and_file_system() {
    let roots = vec![root("file:///a", None), root("/b", Some("b"))];
    for exists in [vec![], vec![false, false], vec![true, true]] {
        let cwd = Err("no working directory".to_string());
        assert_eq!(resolve_path(&roots, "/etc/hosts", &cwd, &exists).unwrap(), "/etc/hosts");
    }
}

#[test]
fn no_roots_uses_working_directory() {
    let roots = Vec::new();
    let cwd = Ok("/home/me/".to_string());
    assert_eq!(resolve_path(&roots, "x.rs", &cwd, &vec![true]).unwrap(), "/home/me/x.rs");
    let cwd = Err("gone".to_string());
    let err = resolve_path(&roots, "x.rs", &cwd, &Vec::new()).unwrap_err();
    assert_eq!(err.kind, ToolErrorKind::CurrentDirectory);
    assert_eq!(err.message, "Failed to get current directory: gone");
}

#[test]
fn first_existing_root_wins() {
    let roots = vec![
        root("file:///one", Some("first")),
        root("/two", None),
        root("file:///three/", Some("third")),
    ];
    let cwd = Ok("/cwd".to_string());
    assert_eq!(resolve_path(&roots, "f", &cwd, &vec![false, true, true]).unwrap(), "/two/f");
    assert_eq!(resolve_path(&roots, "f", &cwd, &vec![false, false, true]).unwrap(), "/three/f");
    assert_eq!(resolve_path(&roots, "f", &cwd, &vec![true, true, true]).unwrap(), "/one/f");
    // what the caller says nothing of counts as absent
    assert_eq!(resolve_path(&roots, "f", &cwd, &vec![false, true]).unwrap(), "/two/f");
    assert!(resolve_path(&roots, "f", &cwd, &vec![false]).is_err());
}

#[test]
fn missing_target_names_every_root() {
    let roots = vec![
        root("file:///one", Some("first")),
        root("/two", None),
        root("file:///three", Some("third")),
    ];
    let cwd = Ok("/cwd".to_string());
    let err = resolve_path(&roots, "src/lib.rs", &cwd, &vec![false, false, false]).unwrap_err();
    assert_eq!(err.kind, ToolErrorKind::PathNotFound);
    assert_eq!(
        err.message,
        "Path 'src/lib.rs' not found in any root directory. Available roots: first, /two, third"
    );
}

#[test]
fn candidates_strip_the_file_scheme() {
    let roots = vec![root("file:///one", None), root("two", None), root("file://", None)];
    assert_eq!(candidate_paths(&roots, "a/b"), vec!["/one/a/b", "two/a/b", "a/b"]);
    assert_eq!(root_path(&roots[0]), "/one");
    assert_eq!(root_path(&roots[1]), "two");
}
