use project_paths::error::ProjectError;
use project_paths::file_type::FileType;
use project_paths::handles::ExistingDirectory;
use project_paths::location::ProjectLocation;
use project_paths::project_path as declare;
use project_paths::project_path::{AsPath, CreateDirAll, CreateEmptyFile};
use project_paths::{Fault, PathMap, Project, ProjectPaths};

fn scenario_root(tmp: &tempfile::TempDir) -> (ExistingDirectory, String) {
    // The scenarios run under a project root named "proj", freshly created
    // inside a unique temporary directory.
    let base_path = tmp.path().to_str().unwrap().to_string();
    let base = ExistingDirectory::checked(&base_path).unwrap();
    let root = declare::dir("proj").resolve(&base).unwrap();
    let root_path = root.as_path().to_string();
    (root, root_path)
}

type ScenarioPaths = ProjectPaths<&'static str, CreateEmptyFile, CreateDirAll>;

fn scenario_paths() -> ScenarioPaths {
    ProjectPaths {
        regular_file_map: PathMap::new(
            "regular file",
            vec![("Config", declare::file("config.toml").must_exist())],
        ),
        directory_map: PathMap::new("directory", vec![("Data", declare::dir("data"))]),
    }
}

#[test]
fn touch_directory_key_creates_then_reuses() {
    let tmp = tempfile::tempdir().unwrap();
    let (_, root_path) = scenario_root(&tmp);
    let project = Project::load(&root_path, scenario_paths()).unwrap();

    let expected = format!("{}/data", root_path);
    assert!(!std::path::Path::new(&expected).exists());

    let first = project.dir("Data").unwrap();
    assert_eq!(first.as_path(), expected);
    assert!(std::path::Path::new(&expected).is_dir());

    let second = project.dir("Data").unwrap();
    assert_eq!(second.as_path(), expected);
    assert!(std::path::Path::new(&expected).is_dir());
}

#[test]
fn resolving_the_same_key_twice_yields_identical_handles() {
    let tmp = tempfile::tempdir().unwrap();
    let (_, root_path) = scenario_root(&tmp);
    let project = Project::load(&root_path, scenario_paths()).unwrap();

    let first = project.dir("Data").unwrap();
    let second = project.dir("Data").unwrap();
    assert_eq!(first.as_path(), second.as_path());
    assert_eq!(first, second);
}

#[test]
fn missing_required_file_key_faults_and_creates_nothing() {
    let tmp = tempfile::tempdir().unwrap();
    let (_, root_path) = scenario_root(&tmp);
    let project = Project::load(&root_path, scenario_paths()).unwrap();

    let fault = project.file("Config").unwrap_err();
    assert_eq!(
        fault,
        Fault::Resolution {
            key: String::from("Config"),
            kind: "regular file",
            error: ProjectError::MissingFile {
                path: format!("{}/config.toml", root_path),
                kind: FileType::RegularFile,
            },
        }
    );
    assert!(!std::path::Path::new(&format!("{}/config.toml", root_path)).exists());
}

#[test]
fn required_file_key_resolves_once_the_file_exists() {
    let tmp = tempfile::tempdir().unwrap();
    let (root, root_path) = scenario_root(&tmp);
    declare::file("config.toml").resolve(&root).unwrap();

    let project = Project::load(&root_path, scenario_paths()).unwrap();
    let handle = project.file("Config").unwrap();
    assert_eq!(handle.as_path(), format!("{}/config.toml", root_path));
}

#[test]
fn undeclared_key_is_a_fatal_fault_naming_key_and_partition() {
    let tmp = tempfile::tempdir().unwrap();
    let (_, root_path) = scenario_root(&tmp);
    let project = Project::load(&root_path, scenario_paths()).unwrap();

    let file_fault = project.file("Unknown").unwrap_err();
    assert_eq!(
        file_fault,
        Fault::UnregisteredKey {
            key: String::from("Unknown"),
            kind: "regular file",
        }
    );
    assert_eq!(file_fault.message(), "No regular file found for Unknown");

    let dir_fault = project.dir("Unknown").unwrap_err();
    assert_eq!(
        dir_fault,
        Fault::UnregisteredKey {
            key: String::from("Unknown"),
            kind: "directory",
        }
    );
    assert_eq!(dir_fault.message(), "No directory found for Unknown");
}

#[test]
fn map_lookup_distinguishes_keys() {
    let tmp = tempfile::tempdir().unwrap();
    let (root, root_path) = scenario_root(&tmp);

    let map = PathMap::new(
        "directory",
        vec![("First", declare::dir("one")), ("Second", declare::dir("two"))],
    );
    let second = map.get(&root, "Second").unwrap();
    assert_eq!(second.as_path(), format!("{}/two", root_path));
    let first = map.get(&root, "First").unwrap();
    assert_eq!(first.as_path(), format!("{}/one", root_path));
}

#[test]
fn loading_fails_when_the_root_is_not_a_directory() {
    let tmp = tempfile::tempdir().unwrap();
    let (_, root_path) = scenario_root(&tmp);

    let missing = format!("{}/not-there", root_path);
    assert!(matches!(
        Project::load(&missing, scenario_paths()),
        Err(ProjectError::Io { .. })
    ));
}

#[test]
fn project_location_finds_manifest_and_root() {
    let tmp = tempfile::tempdir().unwrap();
    let (root, root_path) = scenario_root(&tmp);
    declare::file("Cargo.toml").resolve(&root).unwrap();

    let location = ProjectLocation::new(format!("{}/Cargo.toml", root_path));
    let manifest = location.manifest().unwrap();
    assert_eq!(manifest.as_path(), format!("{}/Cargo.toml", root_path));
    let found_root = location.root().unwrap();
    assert_eq!(found_root.as_path(), root_path);
}

#[test]
fn project_location_fails_without_a_manifest() {
    let tmp = tempfile::tempdir().unwrap();
    let (_, root_path) = scenario_root(&tmp);

    let location = ProjectLocation::new(format!("{}/Cargo.toml", root_path));
    assert!(matches!(location.manifest(), Err(ProjectError::Io { .. })));
    assert!(matches!(location.root(), Err(ProjectError::Io { .. })));
}

#[test]
fn numeric_keys_work_and_display_in_decimal() {
    let tmp = tempfile::tempdir().unwrap();
    let (root, root_path) = scenario_root(&tmp);

    let map = PathMap::new(
        "directory",
        vec![(7u64, declare::dir("seven")), (40u64, declare::dir("forty"))],
    );
    let seven = map.get(&root, 7).unwrap();
    assert_eq!(seven.as_path(), format!("{}/seven", root_path));

    let fault = map.get(&root, 9).unwrap_err();
    assert_eq!(
        fault,
        Fault::UnregisteredKey {
            key: String::from("9"),
            kind: "directory",
        }
    );
    assert_eq!(fault.message(), "No directory found for 9");
}
