use pndev::numfmt::code_to_string;
use pndev::strutil::join_with_spaces;
use pndev::strutil::str_concat;
use pndev::strutil::str_eq;
use pndev::urlparse::clone_url;
use pndev::urlparse::extract_repo_name;
use pndev::urlparse::github_page_url;

#[test]
fn remote_url_splits_into_org_and_repo() {
    let cut = extract_repo_name("git@github.com:PrecisionNutrition/pndev.git").unwrap();
    assert_eq!(cut.0, "PrecisionNutrition");
    assert_eq!(cut.1, "pndev.git");
}

#[test]
fn split_uses_last_colon_and_last_slash() {
    let cut = extract_repo_name("ssh://git@github.com:Org/sub/repo").unwrap();
    assert_eq!(cut.0, "Org/sub");
    assert_eq!(cut.1, "repo");
}

#[test]
fn input_without_colon_is_not_recognized() {
    assert_eq!(extract_repo_name("no-separators-here"), None);
    assert_eq!(extract_repo_name("slash/but-no-colon"), None);
}

#[test]
fn colon_after_the_last_slash_is_not_recognized() {
    assert_eq!(extract_repo_name("colon:only"), None);
}

#[test]
fn page_url_is_host_org_repo() {
    assert_eq!(
        github_page_url("PrecisionNutrition", "pndev"),
        "https://github.com/PrecisionNutrition/pndev"
    );
}

#[test]
fn clone_url_follows_the_template() {
    assert_eq!(
        clone_url("es-student"),
        "git@github.com:PrecisionNutrition/es-student.git"
    );
}

#[test]
fn join_with_spaces_cases() {
    let empty: Vec<String> = vec![];
    assert_eq!(join_with_spaces(&empty), "");
    let one = vec!["--big".to_string()];
    assert_eq!(join_with_spaces(&one), "--big");
    let three = vec!["a".to_string(), "b".to_string(), "c".to_string()];
    assert_eq!(join_with_spaces(&three), "a b c");
    let with_empty = vec!["a".to_string(), String::new()];
    assert_eq!(join_with_spaces(&with_empty), "a ");
}

#[test]
fn concat_and_eq() {
    assert_eq!(str_concat("ab", "cd"), "abcd");
    assert!(str_eq("same", "same"));
    assert!(!str_eq("same", "other"));
}

#[test]
fn decimal_rendering() {
    assert_eq!(code_to_string(0), "0");
    assert_eq!(code_to_string(7), "7");
    assert_eq!(code_to_string(130), "130");
    assert_eq!(code_to_string(255), "255");
    assert_eq!(code_to_string(-1), "-1");
    assert_eq!(code_to_string(i32::MAX), "2147483647");
    assert_eq!(code_to_string(i32::MIN), "-2147483648");
}
