use ddns_updater::outcome::UpdateError;
use ddns_updater::splitter::split;

fn parts(sub: &str, root: &str) -> Result<(String, String), UpdateError> {
    Ok((sub.to_string(), root.to_string()))
}

#[test]
fn bare_label_is_refused() {
    assert_eq!(split("localhost"), Err(UpdateError::InvalidDomain));
}

#[test]
fn empty_name_is_refused() {
    assert_eq!(split(""), Err(UpdateError::InvalidDomain));
}

#[test]
fn one_dot_is_a_root_under_the_apex_label() {
    assert_eq!(split("example.com"), parts("@", "example.com"));
}

#[test]
fn two_dots_are_cut_at_the_first() {
    assert_eq!(split("test.example.com"), parts("test", "example.com"));
}

#[test]
fn deeper_names_lose_only_the_first_label() {
    assert_eq!(split("a.b.example.com"), parts("a", "b.example.com"));
}

#[test]
fn a_lone_dot_counts_as_one_dot() {
    assert_eq!(split("."), parts("@", "."));
}

#[test]
fn trailing_dot_with_one_dot_stays_whole() {
    assert_eq!(split("example."), parts("@", "example."));
}

#[test]
fn neighbouring_dots_are_cut_at_the_first() {
    assert_eq!(split("a..b"), parts("a", ".b"));
    assert_eq!(split(".."), parts("", "."));
}

#[test]
fn leading_dot_with_two_dots_gives_an_empty_label() {
    assert_eq!(split(".example.com"), parts("", "example.com"));
}

#[test]
fn names_beyond_ascii_are_cut_by_characters() {
    assert_eq!(split("bücher.münchen.example"), parts("bücher", "münchen.example"));
    assert_eq!(split("münchen.example"), parts("@", "münchen.example"));
    assert_eq!(split("日本語"), Err(UpdateError::InvalidDomain));
}
