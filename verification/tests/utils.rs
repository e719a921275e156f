use daft_launcher::text;
use daft_launcher::text::{clone_strings, prefix_to, starts_with, str_eq, suffix_from, to_decimal};
use daft_launcher::utils::{
    assert_executable_exists, executable_outcome, assert_file_existence_status, assert_file_status, assert_path_status,
    classify_status, existence_outcome, expand, expand_by_components, expand_home,
    expand_home_by_components, file_status, home_relative, path_status_outcome, FileStatusError,
    PathStatusError, Status,
};

fn s(x: &str) -> String {
    x.to_string()
}

#[test]
fn home_relative_paths() {
    assert!(home_relative("~"));
    assert!(home_relative("~/.ssh/key.pem"));
    assert!(!home_relative("~user/key.pem"));
    assert!(!home_relative("/home/u/~"));
    assert!(!home_relative(""));
}

#[test]
fn home_expansion() {
    assert_eq!(expand_home("~/.ssh/key.pem", "/home/u"), "/home/u/.ssh/key.pem");
    assert_eq!(expand_home("~/.ssh", "/home/u/"), "/home/u/.ssh");
    assert_eq!(expand_home("~//x", "/root"), "/root/x");
    assert_eq!(expand_home("~", "/home/u"), "/home/u/");
    assert_eq!(expand_home("~/", "/home/u"), "/home/u/");
    assert_eq!(expand_home("~/./a/./b/.", "/home/u"), "/home/u/a/./b");
    assert_eq!(expand_home("~/a//b/", "/home/u"), "/home/u/a//b");
    assert_eq!(expand_home("~/.ssh", ""), ".ssh");
}

#[test]
fn expansion_uses_the_home_directory() {
    assert_eq!(expand("/etc/hosts").ok().unwrap(), "/etc/hosts");
    assert_eq!(expand("relative/path").ok().unwrap(), "relative/path");
    let expanded = expand("~/.ssh/key.pem").ok().unwrap();
    assert!(expanded.ends_with("/.ssh/key.pem"));
    assert!(!expanded.starts_with('~'));
}

#[test]
fn file_status_checks() {
    assert_eq!(assert_file_status(Status::File, Status::File), Ok(()));
    assert_eq!(assert_file_status(Status::Directory, Status::DoesNotExist), Err(FileStatusError::AlreadyExists));
    assert_eq!(assert_file_status(Status::DoesNotExist, Status::File), Err(FileStatusError::DoesNotExist));
    assert_eq!(
        assert_file_status(Status::File, Status::Directory),
        Err(FileStatusError::ExpectedDirectoryFoundFile)
    );
    assert_eq!(
        assert_file_status(Status::Directory, Status::File),
        Err(FileStatusError::ExpectedFileFoundDirectory)
    );
    assert_eq!(existence_outcome(true, true), Ok(()));
    assert_eq!(existence_outcome(false, false), Ok(()));
    assert_eq!(existence_outcome(true, false), Err(FileStatusError::AlreadyExists));
    assert_eq!(existence_outcome(false, true), Err(FileStatusError::DoesNotExist));
    assert_eq!(assert_file_existence_status("/", true), Ok(()));
    assert_eq!(assert_file_existence_status("/", false), Err(FileStatusError::AlreadyExists));
    assert_eq!(assert_file_existence_status("/no/such/file", true), Err(FileStatusError::DoesNotExist));
}

#[test]
fn executables_on_the_search_path() {
    assert!(assert_executable_exists("sh").is_ok());
    let missing = assert_executable_exists("surely-no-such-executable-here").err().unwrap();
    assert_eq!(missing.name, "surely-no-such-executable-here");
}

#[test]
fn text_helpers() {
    assert!(str_eq("abc", "abc"));
    assert!(!str_eq("abc", "abd"));
    assert_eq!(text::concat("ray-", "demo"), "ray-demo");
    assert!(starts_with("Authenticated to 1.2.3.4", "Authenticated to"));
    assert!(!starts_with("Auth", "Authenticated"));
    assert_eq!(suffix_from("héllo", 2), "llo");
    assert_eq!(prefix_to("héllo", 2), "hé");
    assert_eq!(to_decimal(0), "0");
    assert_eq!(to_decimal(8265), "8265");
    assert_eq!(to_decimal(u64::MAX), "18446744073709551615");
    assert_eq!(clone_strings(&vec![s("a"), s("b")]), vec![s("a"), s("b")]);
}

#[test]
fn statuses_found_on_the_file_system() {
    assert!(matches!(file_status("/"), Ok(Status::Directory)));
    assert!(matches!(file_status("/etc/passwd"), Ok(Status::File)));
    assert!(matches!(file_status("/no/such/path"), Ok(Status::DoesNotExist)));
    assert!(matches!(file_status("/dev/null"), Err(e) if e.path == "/dev/null"));
    assert!(assert_path_status("/", Status::Directory).is_ok());
    assert!(matches!(
        assert_path_status("/", Status::File),
        Err(PathStatusError::Unexpected(FileStatusError::ExpectedFileFoundDirectory))
    ));
    assert!(matches!(
        assert_path_status("/etc/passwd", Status::DoesNotExist),
        Err(PathStatusError::Unexpected(FileStatusError::AlreadyExists))
    ));
    assert!(matches!(
        assert_path_status("/no/such/path", Status::Directory),
        Err(PathStatusError::Unexpected(FileStatusError::DoesNotExist))
    ));
    assert!(matches!(assert_path_status("/dev/null", Status::File), Err(PathStatusError::Unclassified(_))));
}

#[test]
fn component_wise_expansion() {
    assert_eq!(expand_home_by_components("~/a//b", "/home/u"), "/home/u/a/b");
    assert_eq!(expand_home_by_components("~/a/./b", "/home/u"), "/home/u/a/b");
    assert_eq!(expand_home_by_components("~/dir/", "/home/u"), "/home/u/dir");
    assert_eq!(expand_home_by_components("~", "/home/u"), "/home/u");
    assert_eq!(expand_home_by_components("~/x", "/home/u/"), "/home/u/x");
    assert_eq!(expand_home_by_components("~/../x", "/home/u"), "/home/u/../x");
    assert_eq!(expand_home_by_components("~/.ssh/key", ""), ".ssh/key");
    assert_eq!(expand_by_components("/etc//hosts").ok().unwrap(), "/etc//hosts");
    let expanded = expand_by_components("~//.ssh/./key.pem").ok().unwrap();
    assert!(expanded.ends_with("/.ssh/key.pem"));
    assert!(!expanded.contains("//"));
}

#[test]
fn statuses_from_answers() {
    assert_eq!(classify_status(false, false, false), Some(Status::DoesNotExist));
    assert_eq!(classify_status(true, true, false), Some(Status::File));
    assert_eq!(classify_status(true, false, true), Some(Status::Directory));
    assert_eq!(classify_status(true, false, false), None);
    assert!(path_status_outcome("/p", true, false, true, Status::Directory).is_ok());
    assert!(matches!(
        path_status_outcome("/p", true, true, false, Status::Directory),
        Err(PathStatusError::Unexpected(FileStatusError::ExpectedDirectoryFoundFile))
    ));
    assert!(matches!(
        path_status_outcome("/p", false, false, false, Status::File),
        Err(PathStatusError::Unexpected(FileStatusError::DoesNotExist))
    ));
    assert!(matches!(
        path_status_outcome("/p", true, false, false, Status::File),
        Err(PathStatusError::Unclassified(e)) if e.path == "/p"
    ));
}

#[test]
fn executable_outcomes() {
    assert!(executable_outcome("ray", true).is_ok());
    assert_eq!(executable_outcome("ray", false).err().unwrap().name, "ray");
}
