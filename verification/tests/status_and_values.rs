use project_paths::color::Color;
use project_paths::command::{Args, Envs, WorkingDirectory};
use project_paths::error::ProjectError;
use project_paths::file_type::FileType;
use project_paths::path_str::{dirname, join_path};
use project_paths::project_path::{status_of, AbsoluteDir, AsPath, FileExpectation, FileStatus};
use project_paths::Fault;

#[test]
fn status_table_holds_for_all_six_cases() {
    assert_eq!(
        status_of(FileExpectation::MustAlreadyExist, true),
        FileStatus::Exists
    );
    assert_eq!(
        status_of(FileExpectation::MustAlreadyExist, false),
        FileStatus::DoesNotExistError
    );
    assert_eq!(
        status_of(FileExpectation::MayNotAlreadyExist, true),
        FileStatus::DoesExistError
    );
    assert_eq!(
        status_of(FileExpectation::MayNotAlreadyExist, false),
        FileStatus::ShouldTouch
    );
    assert_eq!(status_of(FileExpectation::Touch, true), FileStatus::Exists);
    assert_eq!(
        status_of(FileExpectation::Touch, false),
        FileStatus::ShouldTouch
    );
}

#[test]
fn default_expectation_is_touch() {
    assert_eq!(FileExpectation::default(), FileExpectation::Touch);
}

#[test]
fn file_type_describes_itself() {
    assert_eq!(FileType::Directory.describe(), "directory");
    assert_eq!(FileType::RegularFile.describe(), "regular file");
    assert_eq!(
        FileType::Other {
            description: "named pipe"
        }
        .describe(),
        "named pipe"
    );
}

#[test]
fn missing_file_error_message_names_path_and_kind() {
    let error = ProjectError::MissingFile {
        path: String::from("/tmp/proj/config.toml"),
        kind: FileType::RegularFile,
    };
    assert_eq!(
        error.message(),
        "Unexpected missing regular file: /tmp/proj/config.toml"
    );
}

#[test]
fn unexpected_present_error_message_names_path_and_kind() {
    let error = ProjectError::UnexpectedPresentFile {
        path: String::from("/tmp/proj/data"),
        kind: FileType::Directory,
    };
    assert_eq!(error.message(), "Unexpectedly present directory: /tmp/proj/data");
}

#[test]
fn io_error_message_is_passed_through() {
    let error = ProjectError::Io {
        message: String::from("permission denied"),
    };
    assert_eq!(error.message(), "permission denied");
}

#[test]
fn unregistered_key_fault_message_names_key_and_partition() {
    let fault = Fault::UnregisteredKey {
        key: String::from("Unknown"),
        kind: "regular file",
    };
    assert_eq!(fault.message(), "No regular file found for Unknown");
}

#[test]
fn resolution_fault_message_names_key_partition_and_cause() {
    let fault = Fault::Resolution {
        key: String::from("Config"),
        kind: "regular file",
        error: ProjectError::MissingFile {
            path: String::from("/tmp/proj/config.toml"),
            kind: FileType::RegularFile,
        },
    };
    assert_eq!(
        fault.message(),
        "There was an error while getting Config (regular file): \
         Unexpected missing regular file: /tmp/proj/config.toml"
    );
}

#[test]
fn join_path_inserts_exactly_one_separator() {
    assert_eq!(join_path("/tmp/proj", "data"), "/tmp/proj/data");
    assert_eq!(join_path("/tmp/proj/", "data"), "/tmp/proj/data");
    assert_eq!(join_path("/", "data"), "/data");
    assert_eq!(join_path("", "data"), "/data");
    assert_eq!(join_path("/a", "b/c"), "/a/b/c");
}

#[test]
fn dirname_strips_the_last_component() {
    assert_eq!(dirname("/tmp/proj/Cargo.toml"), "/tmp/proj");
    assert_eq!(dirname("/Cargo.toml"), "/");
    assert_eq!(dirname("Cargo.toml"), "");
    assert_eq!(dirname("a/b/"), "a/b");
    assert_eq!(dirname(""), "");
}

#[test]
fn args_accumulate_and_display_space_separated() {
    let args = Args::default()
        .add(String::from("locate-project"))
        .add(String::from("--workspace"));
    assert_eq!(args.iter().len(), 2);
    assert_eq!(args.iter()[0], "locate-project");
    assert_eq!(args.iter()[1], "--workspace");
    assert_eq!(args.display(), "locate-project --workspace");
}

#[test]
fn empty_args_display_as_empty() {
    assert_eq!(Args::default().display(), "");
    assert_eq!(Args::default().add(String::from("solo")).display(), "solo");
}

#[test]
fn envs_record_overrides_in_order() {
    let envs = Envs::default()
        .env(String::from("RUST_LOG"), String::from("debug"))
        .env(String::from("TERM"), String::from("dumb"));
    let entries = envs.entries();
    assert_eq!(entries.len(), 2);
    assert_eq!(entries[0], (String::from("RUST_LOG"), String::from("debug")));
    assert_eq!(entries[1], (String::from("TERM"), String::from("dumb")));
}

#[test]
fn envs_display_space_separated_pairs() {
    assert_eq!(Envs::default().display(), "");
    let envs = Envs::default()
        .env(String::from("RUST_LOG"), String::from("debug"))
        .env(String::from("TERM"), String::from("dumb"));
    assert_eq!(envs.display(), "RUST_LOG=debug TERM=dumb");
}

#[test]
fn envs_replace_an_existing_key_in_place() {
    let envs = Envs::default()
        .env(String::from("RUST_LOG"), String::from("debug"))
        .env(String::from("TERM"), String::from("dumb"))
        .env(String::from("RUST_LOG"), String::from("trace"));
    let entries = envs.entries();
    assert_eq!(entries.len(), 2);
    assert_eq!(entries[0], (String::from("RUST_LOG"), String::from("trace")));
    assert_eq!(entries[1], (String::from("TERM"), String::from("dumb")));
}

#[test]
fn color_keeps_its_packed_value() {
    assert_eq!(Color::hex(0xff0000).value(), 0xff0000);
    assert_eq!(Color::hex(0).value(), 0);
    assert_eq!(Color::white().value(), 0xffffff);
}

#[test]
fn working_directory_describes_itself() {
    assert_eq!(
        WorkingDirectory::ProcessWorkingDirectory.describe(),
        "process working directory"
    );
    let explicit = WorkingDirectory::Path(AbsoluteDir::new(String::from("/tmp/proj")));
    assert_eq!(explicit.describe(), "/tmp/proj");
    if let WorkingDirectory::Path(directory) = &explicit {
        assert_eq!(directory.as_path(), "/tmp/proj");
    } else {
        panic!("expected an explicit working directory");
    }
}
