use archive::args::build_may_proceed;
use archive::args::input_validator;
use archive::args::manifest_file_name;
use archive::args::output_validator;
use archive::args::verbose_enabled;

#[test]
fn input_must_be_dir() {
    let r = input_validator("input", true, false);
    assert_eq!(r, Err(String::from("not a directory: input")));
}

#[test]
fn input_must_exist() {
    let r = input_validator("missing", false, false);
    assert_eq!(r, Err(String::from("does not exist: missing")));
    assert_eq!(input_validator("input", true, true), Ok(()));
}

#[test]
fn output_must_have_valid_extension() {
    let r = output_validator(String::from("archive.tar.xz"));
    assert_eq!(r, Err(String::from("must end in .tar.gz: archive.tar.xz")));
    assert_eq!(output_validator(String::from("archive.tar.gz")), Ok(()));
    assert_eq!(
        output_validator(String::from("tar.gz")),
        Err(String::from("must end in .tar.gz: tar.gz"))
    );
    assert_eq!(output_validator(String::from("a.tar.gz")), Ok(()));
}

#[test]
fn without_force_bail_if_output_exists() {
    assert!(!build_may_proceed(true, false));
    assert!(build_may_proceed(true, true));
    assert!(build_may_proceed(false, false));
    assert!(build_may_proceed(false, true));
}

#[test]
fn verbosity_follows_last_flag() {
    assert!(!verbose_enabled(None, None));
    assert!(!verbose_enabled(Some(3), None));
    assert!(verbose_enabled(None, Some(2)));
    assert!(verbose_enabled(Some(1), Some(2)));
    assert!(!verbose_enabled(Some(4), Some(2)));
}

#[test]
fn manifest_name_appends_md5_suffix() {
    assert_eq!(
        manifest_file_name("archive.tar.gz"),
        String::from("archive.tar.gz.md5")
    );
}
