//! Unit tests of the library's building blocks: paths, filters, the
//! license transform and the template registry.

use sifis_generate::error::GenError;
use sifis_generate::filters::comment_license;
use sifis_generate::filters::comment_license_lines;
use sifis_generate::license_db::resolve_license;
use sifis_generate::paths::define_name;
use sifis_generate::paths::parent_dir;
use sifis_generate::paths::path_join;
use sifis_generate::paths::with_ext;
use sifis_generate::registry::TemplateRegistry;
use sifis_generate::text::hypens_to_underscores;
use sifis_generate::text::join_lines;
use sifis_generate::text::lines_vec;

#[test]
fn name_resolution_prefers_the_caller_name() {
    assert_eq!(define_name("given", "/tmp/my-app").unwrap(), "given");
    assert_eq!(define_name("", "/tmp/my-app").unwrap(), "my-app");
    assert_eq!(define_name("", "/tmp/my-app/").unwrap(), "my-app");
    assert_eq!(define_name("", "relative/dir").unwrap(), "dir");
    assert_eq!(define_name("", "/").unwrap_err(), GenError::InvalidName);
    assert_eq!(define_name("", "").unwrap_err(), GenError::InvalidName);
    assert_eq!(define_name("", "/tmp/..").unwrap_err(), GenError::InvalidName);
}

#[test]
fn path_join_inserts_one_separator() {
    assert_eq!(path_join("/tmp/x", "a.txt"), "/tmp/x/a.txt");
    assert_eq!(path_join("/tmp/x/", "a.txt"), "/tmp/x/a.txt");
    assert_eq!(path_join("", "a.txt"), "a.txt");
}

#[test]
fn parent_dir_drops_the_final_component() {
    assert_eq!(parent_dir("/tmp/my-app").unwrap(), "/tmp");
    assert_eq!(parent_dir("/tmp/my-app/").unwrap(), "/tmp");
    assert_eq!(parent_dir("my-app").unwrap(), "");
    assert_eq!(parent_dir("/my-app").unwrap(), "/");
    assert!(parent_dir("/").is_none());
    assert!(parent_dir("").is_none());
}

#[test]
fn with_ext_replaces_the_final_extension() {
    assert_eq!(with_ext("app", "c"), "app.c");
    assert_eq!(with_ext("app.old", "c"), "app.c");
    assert_eq!(with_ext(".gitignore", "c"), ".gitignore.c");
}

#[test]
fn hyphens_become_underscores() {
    assert_eq!(hypens_to_underscores("my-app-cli"), "my_app_cli");
    assert_eq!(hypens_to_underscores("nohyphen"), "nohyphen");
    assert_eq!(hypens_to_underscores(""), "");
}

#[test]
fn comment_license_wraps_and_prefixes() {
    let text = "This license text is deliberately long so that wrapping it to the fixed \
                column width must break it into several lines of output text.";
    assert!(text.len() > 79);
    let out = comment_license(text, "#");
    let lines: Vec<&str> = out.lines().collect();
    assert!(lines.len() > 1);
    for line in &lines {
        assert!(line.len() <= 79, "line too long: {:?}", line);
        assert!(line.starts_with("# "), "line not prefixed: {:?}", line);
    }
    let mut rejoined = lines
        .iter()
        .map(|l| l.trim_start_matches("# ").to_string())
        .collect::<Vec<_>>()
        .join(" ");
    rejoined = rejoined.trim().to_string();
    assert_eq!(rejoined, text.split_whitespace().collect::<Vec<_>>().join(" "));
}

#[test]
fn comment_license_lines_match_the_joined_form() {
    let text = "alpha beta gamma delta epsilon zeta eta theta iota kappa lambda mu nu xi \
                omicron pi rho sigma tau upsilon phi chi psi omega";
    let lines = comment_license_lines(text, "//");
    let joined = comment_license(text, "//");
    assert_eq!(lines.join("\n"), joined);
    for line in &lines {
        assert!(line.starts_with("// "));
    }
}

#[test]
fn license_body_drops_two_lines_and_blanks() {
    let (info, raw) = resolve_license("MIT").unwrap();
    assert_eq!(info.id, "MIT");
    let mit = "MIT".parse::<&dyn license::License>().unwrap();
    assert_eq!(raw, mit.text());
    let expected: Vec<&str> = mit.text().lines().skip(2).filter(|l| !l.is_empty()).collect();
    assert_eq!(info.body, expected);
    assert!(!info.body.is_empty());
    for line in &info.body {
        assert!(!line.is_empty());
    }
    let first_nonblank = mit
        .text()
        .lines()
        .skip(2)
        .find(|l| !l.is_empty())
        .unwrap();
    assert_eq!(info.body[0], first_nonblank);
}

#[test]
fn unknown_license_is_rejected() {
    assert_eq!(
        resolve_license("NOT-A-LICENSE").unwrap_err(),
        GenError::LicenseNotFound
    );
}

#[test]
fn apache_license_resolves_with_header() {
    let (info, _raw) = resolve_license("Apache-2.0").unwrap();
    assert_eq!(info.id, "Apache-2.0");
    let apache = "Apache-2.0".parse::<&dyn license::License>().unwrap();
    assert_eq!(info.header.as_deref(), apache.header());
}

#[test]
fn lines_vec_splits_like_str_lines() {
    let cases = ["", "one", "one\ntwo", "one\ntwo\n", "a\r\nb", "\n\n", "end\r"];
    for case in cases {
        let got = lines_vec(case);
        let expected: Vec<&str> = case.lines().collect();
        assert_eq!(got, expected, "case {:?}", case);
    }
}

#[test]
fn join_lines_is_inverse_of_split_without_trailing_newline() {
    let v = vec!["a".to_string(), "".to_string(), "c".to_string()];
    assert_eq!(join_lines(&v), "a\n\nc");
    assert_eq!(join_lines(&Vec::new()), "");
}

#[test]
fn registry_rejects_duplicates_and_finds_entries() {
    let mut reg = TemplateRegistry::new();
    assert!(reg.register("a".to_string(), "body a".to_string()).is_ok());
    assert!(reg.register("b".to_string(), "body b".to_string()).is_ok());
    assert_eq!(
        reg.register("a".to_string(), "again".to_string()).unwrap_err(),
        GenError::DuplicateTemplateId
    );
    assert_eq!(reg.lookup(&"a".to_string()).unwrap(), "body a");
    assert_eq!(reg.lookup(&"b".to_string()).unwrap(), "body b");
    assert!(reg.lookup(&"c".to_string()).is_none());
    reg.set("a".to_string(), "replaced".to_string());
    assert_eq!(reg.lookup(&"a".to_string()).unwrap(), "replaced");
    reg.set("c".to_string(), "fresh".to_string());
    assert_eq!(reg.lookup(&"c".to_string()).unwrap(), "fresh");
}
