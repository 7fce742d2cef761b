use buildkit::signal::{
    collapse_runs, include_signal, mark_alphanumeric, no_vendor_var, rerun_signal,
};
use buildkit::text::{has_suffix, push_decimal, same_text};

#[test]
fn no_vendor_name_of_a_dashed_library() {
    assert_eq!(no_vendor_var("libfoo-bar"), "LIBFOO_BAR_NO_VENDOR");
}

#[test]
fn no_vendor_name_of_a_dotted_library() {
    assert_eq!(no_vendor_var("A.b"), "A_B_NO_VENDOR");
}

#[test]
fn runs_collapse_to_one_underscore() {
    assert_eq!(no_vendor_var("lib--foo.+bar"), "LIB_FOO_BAR_NO_VENDOR");
    assert_eq!(no_vendor_var("-zlib-"), "_ZLIB__NO_VENDOR");
    assert_eq!(no_vendor_var("lib_z"), "LIB_Z_NO_VENDOR");
    assert_eq!(no_vendor_var(""), "_NO_VENDOR");
    assert_eq!(no_vendor_var("---"), "__NO_VENDOR");
}

#[test]
fn digits_and_letters_are_kept() {
    assert_eq!(no_vendor_var("sqlite3"), "SQLITE3_NO_VENDOR");
    assert_eq!(no_vendor_var("caf\u{e9}"), "CAF\u{c9}_NO_VENDOR");
}

#[test]
fn collapse_goes_by_the_marks() {
    assert_eq!(collapse_runs("A.-B", &vec![true, false, false, true]), "A_B");
    assert_eq!(collapse_runs("abc", &vec![false, true, false]), "_b_");
    assert_eq!(collapse_runs("abc", &vec![true, true, true]), "abc");
    assert_eq!(collapse_runs("", &vec![]), "");
    assert_eq!(collapse_runs("abcd", &vec![true]), "a_");
    assert_eq!(collapse_runs("ab", &vec![true, true, true]), "ab");
}

#[test]
fn marks_tell_letters_and_numbers() {
    assert_eq!(mark_alphanumeric("a-1 _\u{e9}"), vec![true, false, true, false, false, true]);
}

#[test]
fn rerun_line_names_the_variable() {
    assert_eq!(rerun_signal("libgit2"), "cargo:rerun-if-env-changed=LIBGIT2_NO_VENDOR");
    assert_eq!(rerun_signal("libfoo-bar"), "cargo:rerun-if-env-changed=LIBFOO_BAR_NO_VENDOR");
}

#[test]
fn include_line_names_the_path() {
    assert_eq!(include_signal("/usr/include/foo"), "cargo:include=/usr/include/foo");
    assert_eq!(include_signal(""), "cargo:include=");
}

#[test]
fn suffixes() {
    assert!(has_suffix("x86_64-pc-windows-msvc", "-windows-msvc"));
    assert!(has_suffix("abc", ""));
    assert!(has_suffix("abc", "abc"));
    assert!(!has_suffix("bc", "abc"));
    assert!(!has_suffix("x86_64-pc-windows-gnu", "-windows-msvc"));
    assert!(has_suffix("h\u{e9}llo", "\u{e9}llo"));
}

#[test]
fn texts_compare_by_their_letters() {
    assert!(same_text("min", "min"));
    assert!(!same_text("min", "max"));
    assert!(!same_text("min", "mi"));
    assert!(same_text("", ""));
}

#[test]
fn decimals() {
    for (number, written) in [(0usize, "0"), (7, "7"), (10, "10"), (42, "42"), (1205, "1205")] {
        let mut text = String::from("n=");
        push_decimal(&mut text, number);
        assert_eq!(text, format!("n={}", written));
    }
    let mut text = String::new();
    push_decimal(&mut text, usize::MAX);
    assert_eq!(text, usize::MAX.to_string());
}
