use git_overview::outcome::exit_code;

#[test]
fn success_exits_with_zero() {
    assert_eq!(exit_code(Ok(())), 0);
}

#[test]
fn failure_exits_with_the_code_of_the_system() {
    assert_eq!(exit_code(Err(Some(2))), 2);
    assert_eq!(exit_code(Err(Some(13))), 13);
}

#[test]
fn failure_without_a_code_is_a_software_error() {
    assert_eq!(exit_code(Err(None)), 70);
}

#[test]
fn missing_root_exits_with_a_code_that_is_not_zero() {
    let not_found = std::io::Error::from(std::io::ErrorKind::NotFound);
    assert_ne!(exit_code(Err(not_found.raw_os_error())), 0);
    let no_such_file = std::io::Error::from_raw_os_error(2);
    assert_eq!(exit_code(Err(no_such_file.raw_os_error())), 2);
}
