use git_overview::discovery::working_directories;
use git_overview::repository::{Head, Repository};

fn repository(workdir: Option<&str>) -> Repository {
    Repository::new(workdir.map(String::from), Head::Unborn)
}

#[test]
fn every_valid_candidate_is_discovered() {
    let candidates = vec![
        Some(repository(Some("/tmp/work/proj1/"))),
        Some(repository(Some("/tmp/work/proj2/"))),
    ];
    assert_eq!(
        working_directories(&candidates),
        vec![String::from("/tmp/work/proj1/"), String::from("/tmp/work/proj2/")]
    );
}

#[test]
fn marker_that_does_not_open_is_left_out() {
    let candidates = vec![
        Some(repository(Some("/tmp/work/proj1/"))),
        None,
        Some(repository(Some("/tmp/work/proj2/"))),
    ];
    assert_eq!(
        working_directories(&candidates),
        vec![String::from("/tmp/work/proj1/"), String::from("/tmp/work/proj2/")]
    );
}

#[test]
fn repository_without_working_directory_is_left_out() {
    let candidates = vec![Some(repository(None)), Some(repository(Some("/tmp/work/a/")))];
    assert_eq!(working_directories(&candidates), vec![String::from("/tmp/work/a/")]);
}

#[test]
fn valid_candidates_are_counted_exactly() {
    let mut candidates = Vec::new();
    for i in 0..7 {
        candidates.push(Some(repository(Some(&format!("/r/valid{}/", i)))));
        candidates.push(None);
        if i % 2 == 0 {
            candidates.push(Some(repository(None)));
        }
    }
    assert_eq!(working_directories(&candidates).len(), 7);
}

#[test]
fn nested_repositories_are_distinct_entries() {
    let candidates = vec![
        Some(repository(Some("/tmp/work/outer/"))),
        Some(repository(Some("/tmp/work/outer/vendor/inner/"))),
    ];
    assert_eq!(working_directories(&candidates).len(), 2);
}

#[test]
fn nothing_found_is_no_failure() {
    assert!(working_directories(&Vec::new()).is_empty());
    assert!(working_directories(&vec![None, None]).is_empty());
}
