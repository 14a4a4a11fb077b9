use xz_fastcgi::cli::{parse_args, Launch};

fn args(words: &[&str]) -> Vec<String> {
    words.iter().map(|w| w.to_string()).collect()
}

#[test]
fn one_path_serves() {
    match parse_args(args(&["xz_fastcgi", "/run/xz.sock"])) {
        Launch::Serve(p) => assert_eq!(p, "/run/xz.sock"),
        Launch::Help => panic!("expected to serve"),
    }
}

#[test]
fn no_path_prints_help() {
    assert!(matches!(parse_args(args(&["xz_fastcgi"])), Launch::Help));
    assert!(matches!(parse_args(Vec::new()), Launch::Help));
}

#[test]
fn help_flag_anywhere_prints_help() {
    assert!(matches!(parse_args(args(&["xz_fastcgi", "-h"])), Launch::Help));
    assert!(matches!(parse_args(args(&["xz_fastcgi", "--help"])), Launch::Help));
    assert!(matches!(parse_args(args(&["xz_fastcgi", "/s", "--help"])), Launch::Help));
}

#[test]
fn two_paths_print_help() {
    assert!(matches!(parse_args(args(&["xz_fastcgi", "/a", "/b"])), Launch::Help));
}
