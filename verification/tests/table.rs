use repolocli::frontend::table::{
    package_cells, plain_cells, plain_packages, plain_problems, problem_cells, TableFrontend,
};
use repolocli::types::{Package, Problem};

fn package(name: &str, version: &str, status: Option<&str>, www: Option<&[&str]>) -> Package {
    Package {
        name: name.to_string(),
        version: version.to_string(),
        repo: "debian".to_string(),
        status: status.map(|s| s.to_string()),
        www: www.map(|pages| pages.iter().map(|p| p.to_string()).collect()),
    }
}

fn problem() -> Problem {
    Problem {
        repo: "debian".to_string(),
        name: "foo".to_string(),
        effname: "foo".to_string(),
        maintainer: "me@example.org".to_string(),
        problem: "Homepage is dead".to_string(),
    }
}

fn cells(items: &[&str]) -> Vec<String> {
    items.iter().map(|s| s.to_string()).collect()
}

#[test]
fn package_row_shows_status_and_first_page() {
    let p = package("foo", "1.0", Some("newest"), Some(&["https://a.example/", "https://b.example/"]));
    assert_eq!(package_cells(&p), cells(&["foo", "1.0", "debian", "newest", "https://a.example/"]));
}

#[test]
fn package_row_without_status_says_so() {
    let p = package("foo", "1.0", None, None);
    assert_eq!(package_cells(&p), cells(&["foo", "1.0", "debian", "No status", ""]));
}

#[test]
fn package_row_without_pages_has_no_address() {
    let p = package("foo", "1.0", Some("outdated"), Some(&[]));
    assert_eq!(package_cells(&p), cells(&["foo", "1.0", "debian", "outdated", ""]));
}

#[test]
fn problem_row_shows_all_fields() {
    assert_eq!(
        problem_cells(&problem()),
        cells(&["debian", "foo", "foo", "me@example.org", "Homepage is dead"])
    );
}

#[test]
fn packages_fill_a_table_row_by_row() {
    let frontend = TableFrontend::new(std::io::stdout());
    let table = frontend.list_packages(vec![
        package("foo", "1.0", None, None),
        package("bar", "2.0", Some("newest"), Some(&["https://bar.example/"])),
    ]);
    assert_eq!(table.len(), 2);
    let first = table.get_row(0).unwrap();
    assert_eq!(first.len(), 5);
    assert_eq!(first.get_cell(0).unwrap().get_content(), "foo");
    assert_eq!(first.get_cell(3).unwrap().get_content(), "No status");
    let second = table.get_row(1).unwrap();
    assert_eq!(second.get_cell(0).unwrap().get_content(), "bar");
    assert_eq!(second.get_cell(4).unwrap().get_content(), "https://bar.example/");
}

#[test]
fn package_table_is_framed() {
    let frontend = TableFrontend::new(std::io::stdout());
    let table = frontend.list_packages(vec![package("foo", "1.0", None, None)]);
    let expected = "\
+------+---------+--------+-----------+-----+
| Name | Version | Repo   | Status    | URL |
+------+---------+--------+-----------+-----+
| foo  | 1.0     | debian | No status |     |
+------+---------+--------+-----------+-----+
";
    assert_eq!(table.to_string(), expected);
}

#[test]
fn rows_are_not_ruled_off_from_each_other() {
    let frontend = TableFrontend::new(std::io::stdout());
    let table = frontend.list_packages(vec![
        package("a", "1", Some("x"), None),
        package("b", "2", Some("y"), None),
    ]);
    let expected = "\
+------+---------+--------+--------+-----+
| Name | Version | Repo   | Status | URL |
+------+---------+--------+--------+-----+
| a    | 1       | debian | x      |     |
| b    | 2       | debian | y      |     |
+------+---------+--------+--------+-----+
";
    assert_eq!(table.to_string(), expected);
}

#[test]
fn empty_package_table_has_titles_only() {
    let frontend = TableFrontend::new(std::io::stdout());
    let table = frontend.list_packages(vec![]);
    assert_eq!(table.len(), 0);
    let expected = "\
+------+---------+------+--------+-----+
| Name | Version | Repo | Status | URL |
+------+---------+------+--------+-----+
+------+---------+------+--------+-----+
";
    assert_eq!(table.to_string(), expected);
}

#[test]
fn problems_fill_a_table() {
    let frontend = TableFrontend::new(std::io::stdout());
    let table = frontend.list_problems(vec![problem()]);
    assert_eq!(table.len(), 1);
    let expected = "\
+--------+------+---------+----------------+------------------+
| Repo   | Name | EffName | Maintainer     | Description      |
+--------+------+---------+----------------+------------------+
| debian | foo  | foo     | me@example.org | Homepage is dead |
+--------+------+---------+----------------+------------------+
";
    assert_eq!(table.to_string(), expected);
}

#[test]
fn rows_of_plain_texts_are_plain() {
    assert!(plain_cells(&cells(&["a", "", "b c"])));
    assert!(plain_cells(&cells(&[])));
    assert!(plain_packages(&vec![package("foo", "1.0", None, None)]));
    assert!(plain_packages(&vec![]));
    assert!(plain_problems(&vec![problem()]));
}

#[test]
fn an_escape_character_in_a_shown_field_is_found() {
    let bad = "\u{1b}[\u{a4f8}\u{a4fc}\u{a4f8}\u{a4fc}";
    assert!(!plain_cells(&cells(&["a", bad])));
    assert!(!plain_packages(&vec![package("foo", "1.0", None, None), package(bad, "1.0", None, None)]));
    assert!(!plain_packages(&vec![package("foo", "1.0", Some(bad), None)]));
    assert!(!plain_packages(&vec![package("foo", "1.0", None, Some(&[bad]))]));
    let mut p = problem();
    p.problem = bad.to_string();
    assert!(!plain_problems(&vec![p]));
}

#[test]
fn only_the_first_page_is_shown_and_tested() {
    let bad = "\u{1b}[\u{a4f8}\u{a4fc}\u{a4f8}\u{a4fc}";
    assert!(plain_packages(&vec![package("foo", "1.0", None, Some(&["https://a.example/", bad]))]));
}
