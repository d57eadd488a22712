use jsmoke::app::AppOutput;
use jsmoke::types::project::path::ProjectPath;
use std::path::PathBuf;

#[test]
fn exit_codes_are_zero_and_one() {
    assert_eq!(AppOutput::AllOk.into_exit_code(), 0);
    assert_eq!(AppOutput::NotOk.into_exit_code(), 1);
}

#[test]
fn project_path_keeps_what_it_is_given() {
    let path = ProjectPath::new(PathBuf::from("some/where"), true);
    assert_eq!(path.path, PathBuf::from("some/where"));
    assert!(path.parent);
    let copy = path.clone();
    assert_eq!(copy.path, path.path);
    assert_eq!(copy.parent, path.parent);
}
