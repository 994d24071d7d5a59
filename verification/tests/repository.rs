use git_overview::repository::{workdir_path, Head, HeadError, Repository};

#[test]
fn name_is_the_display_name_of_the_working_directory() {
    let repository = Repository::new(Some(String::from("/tmp/work/proj1/")), Head::Unborn);
    assert_eq!(repository.name(false, 9), "proj1");
    assert_eq!(repository.name(true, 9), "/tmp/work/proj1");
}

#[test]
fn name_without_working_directory_is_empty() {
    let repository = Repository::new(None, Head::Unborn);
    assert_eq!(repository.name(false, 9), "");
    assert_eq!(repository.name(true, 9), "");
}

#[test]
fn workdir_path_is_absent_without_working_directory() {
    let repository = Repository::new(None, Head::Unreadable);
    assert_eq!(workdir_path(&repository, true, 0), None);
    let repository = Repository::new(Some(String::from("/r/a/")), Head::Unreadable);
    assert_eq!(workdir_path(&repository, true, 0), Some(String::from("/r/a")));
    assert_eq!(workdir_path(&repository, false, 2), Some(String::from("a")));
}

#[test]
fn branch_of_each_kind_of_head() {
    let workdir = Some(String::from("/r/a/"));
    let named = Repository::new(workdir.clone(), Head::Resolved(Some(String::from("main"))));
    assert_eq!(named.branch(), Ok(String::from("main")));
    let nameless = Repository::new(workdir.clone(), Head::Resolved(None));
    assert_eq!(nameless.branch(), Ok(String::new()));
    let unborn = Repository::new(workdir.clone(), Head::Unborn);
    assert_eq!(unborn.branch(), Err(HeadError::UnbornBranch));
    let unreadable = Repository::new(workdir, Head::Unreadable);
    assert_eq!(unreadable.branch(), Err(HeadError::Other));
}
