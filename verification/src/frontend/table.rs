//! Results laid out as tables.
//!
//! The frontend fills a table with one row per result. Printing the table is
//! left to the caller.

use std::io::Stdout;
use vstd::prelude::*;
use prettytable::format::{LinePosition, LineSeparator, TableFormat};
use prettytable::{Cell, Row, Table};
use crate::text::{all_plain, is_plain, plain, texts};
use crate::types::{package_views, problem_views, Package, PackageView, Problem, ProblemView};

verus! {

#[verifier::external_type_specification]
#[verifier::external_body]
pub struct ExStdout(Stdout);

#[verifier::external_type_specification]
#[verifier::external_body]
pub struct ExTable(Table);

/// The title row of a table, cell by cell, if it has one.
pub uninterp spec fn table_titles(table: Table) -> Option<Seq<Seq<char>>>;

/// The rows of a table below its titles, each cell by cell.
pub uninterp spec fn table_rows(table: Table) -> Seq<Seq<Seq<char>>>;

/// The content that a table cell made from `text` holds: the text cut into
/// lines and the lines joined again.
pub uninterp spec fn cell_text(text: Seq<char>) -> Seq<char>;

/// How a horizontal line is drawn: the character of the line itself, and
/// those where it meets a column separator, the left border and the right
/// border.
pub struct Rule {
    pub line: char,
    pub junction: char,
    pub left: char,
    pub right: char,
}

/// How a table is drawn: the characters between columns and at the two
/// borders, the blanks left and right of a cell's content, the blanks before
/// each line of the table, and the horizontal lines above the first row,
/// under the titles, between rows and below the last row. What is `None` is
/// not drawn.
pub struct Frame {
    pub column: Option<char>,
    pub left: Option<char>,
    pub right: Option<char>,
    pub pad_left: nat,
    pub pad_right: nat,
    pub indent: nat,
    pub top: Option<Rule>,
    pub title: Option<Rule>,
    pub intern: Option<Rule>,
    pub bottom: Option<Rule>,
}

/// The format that a table holds.
pub uninterp spec fn table_frame(table: Table) -> Frame;

/// A frame that draws nothing and leaves no blanks.
pub open spec fn blank_frame() -> Frame {
    Frame {
        column: None,
        left: None,
        right: None,
        pad_left: 0,
        pad_right: 0,
        indent: 0,
        top: None,
        title: None,
        intern: None,
        bottom: None,
    }
}

/// A frame with the given horizontal line at `at`.
pub open spec fn ruled(frame: Frame, at: Line, rule: Rule) -> Frame {
    match at {
        Line::Top => Frame { top: Some(rule), ..frame },
        Line::Title => Frame { title: Some(rule), ..frame },
        Line::Intern => Frame { intern: Some(rule), ..frame },
        Line::Bottom => Frame { bottom: Some(rule), ..frame },
    }
}

/// The contents of the cells made from the texts of one row.
pub open spec fn cells_of(row: Seq<Seq<char>>) -> Seq<Seq<char>> {
    row.map_values(|text: Seq<char>| cell_text(text))
}

/// The contents of the cells made from the texts of some rows.
pub open spec fn rows_of(rows: Seq<Seq<Seq<char>>>) -> Seq<Seq<Seq<char>>> {
    rows.map_values(|row: Seq<Seq<char>>| cells_of(row))
}

/// Where a table can have a horizontal line.
#[derive(Clone, Copy, Debug, PartialEq, Eq, Structural)]
pub enum Line {
    /// Above the first row.
    Top,
    /// Between the titles and the rows.
    Title,
    /// Between two rows.
    Intern,
    /// Below the last row.
    Bottom,
}

/// `Table::new` and `Table::set_format` with `TableFormat::new`: a table
/// without titles and rows, whose format draws nothing.
#[verifier::external_body]
fn new_table() -> (table: Table)
    ensures
        table_titles(table) is None,
        table_rows(table) == Seq::<Seq<Seq<char>>>::empty(),
        table_frame(table) == blank_frame(),
{
    let mut table = Table::new();
    table.set_format(TableFormat::new());
    table
}

/// `TableFormat::column_separator`, `borders` and `padding` on the format
/// that `Table::get_format` hands out: the separator goes between columns,
/// the border character to both borders, and the padding is set. The rest
/// of the format, the titles and the rows stay.
#[verifier::external_body]
fn set_frame(table: &mut Table, column: char, border: char, pad_left: usize, pad_right: usize)
    ensures
        table_frame(*final(table)) == (Frame {
            column: Some(column),
            left: Some(border),
            right: Some(border),
            pad_left: pad_left as nat,
            pad_right: pad_right as nat,
            ..table_frame(*old(table))
        }),
        table_titles(*final(table)) == table_titles(*old(table)),
        table_rows(*final(table)) == table_rows(*old(table)),
{
    let format = table.get_format();
    format.column_separator(column);
    format.borders(border);
    format.padding(pad_left, pad_right);
}

/// `TableFormat::separator` with `LineSeparator::new` on the format that
/// `Table::get_format` hands out: the line at `at` is drawn with `line`, and
/// with `junction` where it meets a column separator or a border. The rest
/// of the format, the titles and the rows stay.
#[verifier::external_body]
fn set_rule(table: &mut Table, at: Line, line: char, junction: char)
    ensures
        table_frame(*final(table)) == ruled(
            table_frame(*old(table)),
            at,
            (Rule { line, junction, left: junction, right: junction }),
        ),
        table_titles(*final(table)) == table_titles(*old(table)),
        table_rows(*final(table)) == table_rows(*old(table)),
{
    let position = match at {
        Line::Top => LinePosition::Top,
        Line::Title => LinePosition::Title,
        Line::Intern => LinePosition::Intern,
        Line::Bottom => LinePosition::Bottom,
    };
    table.get_format().separator(position, LineSeparator::new(line, junction, junction, junction));
}

/// `Table::set_titles` on a row with one cell per text, each made by
/// `Cell::new`: the row becomes the table's titles, its rows and its format
/// stay. `Cell::new` measures its text and fails on some texts that hold an
/// escape character, so the texts are to be plain.
#[verifier::external_body]
fn set_titles(table: &mut Table, titles: &Vec<String>)
    requires
        forall|i: int| 0 <= i < titles@.len() ==> plain(#[trigger] titles@[i]@),
    ensures
        table_titles(*final(table)) == Some(Seq::new(titles@.len(), |i: int| cell_text(titles@[i]@))),
        table_rows(*final(table)) == table_rows(*old(table)),
        table_frame(*final(table)) == table_frame(*old(table)),
{
    table.set_titles(Row::new(titles.iter().map(|text| Cell::new(text)).collect()));
}

/// `Table::add_row` on a row with one cell per text, each made by
/// `Cell::new`: the row comes last among the table's rows, its titles and
/// its format stay. `Cell::new` measures its text and fails on some texts
/// that hold an escape character, so the texts are to be plain.
#[verifier::external_body]
fn add_row(table: &mut Table, cells: &Vec<String>)
    requires
        forall|i: int| 0 <= i < cells@.len() ==> plain(#[trigger] cells@[i]@),
    ensures
        table_rows(*final(table)) == table_rows(*old(table)).push(
            Seq::new(cells@.len(), |i: int| cell_text(cells@[i]@)),
        ),
        table_titles(*final(table)) == table_titles(*old(table)),
        table_frame(*final(table)) == table_frame(*old(table)),
{
    table.add_row(Row::new(cells.iter().map(|text| Cell::new(text)).collect()));
}

/// How the frontend draws its tables: columns and borders with a bar, a
/// ruled line above the table, under the titles and below the table, and one
/// blank on each side of a cell's content.
pub open spec fn table_style() -> Frame {
    let rule = Rule { line: '-', junction: '+', left: '+', right: '+' };
    Frame {
        column: Some('|'),
        left: Some('|'),
        right: Some('|'),
        pad_left: 1,
        pad_right: 1,
        indent: 0,
        top: Some(rule),
        title: Some(rule),
        intern: None,
        bottom: Some(rule),
    }
}

/// Every text of every row is plain.
pub open spec fn plain_rows(rows: Seq<Seq<Seq<char>>>) -> bool {
    forall|i: int| 0 <= i < rows.len() ==> all_plain(#[trigger] rows[i])
}

/// The titles above a table of packages.
pub open spec fn package_titles() -> Seq<Seq<char>> {
    seq!["Name"@, "Version"@, "Repo"@, "Status"@, "URL"@]
}

/// The row of one package: name, version, repository, its status or a note
/// that it has none, and the first of its web pages or nothing.
pub open spec fn package_row(package: PackageView) -> Seq<Seq<char>> {
    seq![
        package.name,
        package.version,
        package.repo,
        match package.status {
            Some(status) => status,
            None => "No status"@,
        },
        match package.www {
            Some(pages) => if pages.len() > 0 {
                pages[0]
            } else {
                Seq::empty()
            },
            None => Seq::empty(),
        },
    ]
}

/// The rows of a list of packages, in order.
pub open spec fn package_rows(packages: Seq<PackageView>) -> Seq<Seq<Seq<char>>> {
    packages.map_values(|p: PackageView| package_row(p))
}

/// The titles above a table of problems.
pub open spec fn problem_titles() -> Seq<Seq<char>> {
    seq!["Repo"@, "Name"@, "EffName"@, "Maintainer"@, "Description"@]
}

/// The row of one problem.
pub open spec fn problem_row(problem: ProblemView) -> Seq<Seq<char>> {
    seq![problem.repo, problem.name, problem.effname, problem.maintainer, problem.problem]
}

/// The rows of a list of problems, in order.
pub open spec fn problem_rows(problems: Seq<ProblemView>) -> Seq<Seq<Seq<char>>> {
    problems.map_values(|p: ProblemView| problem_row(p))
}

/// Sets the titles of a table.
fn title(table: &mut Table, titles: &Vec<String>)
    requires
        all_plain(texts(titles@)),
    ensures
        table_titles(*final(table)) == Some(cells_of(texts(titles@))),
        table_rows(*final(table)) == table_rows(*old(table)),
        table_frame(*final(table)) == table_frame(*old(table)),
{
    assert forall|i: int| 0 <= i < titles@.len() implies plain(#[trigger] titles@[i]@) by {
        assert(texts(titles@)[i] == titles@[i]@);
    }
    set_titles(table, titles);
    assert(Seq::new(titles@.len(), |i: int| cell_text(titles@[i]@)) =~= cells_of(texts(titles@)));
}

/// Adds a row to a table.
fn append(table: &mut Table, cells: &Vec<String>)
    requires
        all_plain(texts(cells@)),
    ensures
        table_rows(*final(table)) == table_rows(*old(table)).push(cells_of(texts(cells@))),
        table_titles(*final(table)) == table_titles(*old(table)),
        table_frame(*final(table)) == table_frame(*old(table)),
{
    assert forall|i: int| 0 <= i < cells@.len() implies plain(#[trigger] cells@[i]@) by {
        assert(texts(cells@)[i] == cells@[i]@);
    }
    add_row(table, cells);
    assert(Seq::new(cells@.len(), |i: int| cell_text(cells@[i]@)) =~= cells_of(texts(cells@)));
}

/// The titles of a table of packages are plain.
pub proof fn lemma_package_titles_plain()
    ensures
        all_plain(package_titles()),
{
    reveal_strlit("Name");
    reveal_strlit("Version");
    reveal_strlit("Repo");
    reveal_strlit("Status");
    reveal_strlit("URL");
}

/// The titles of a table of problems are plain.
pub proof fn lemma_problem_titles_plain()
    ensures
        all_plain(problem_titles()),
{
    reveal_strlit("Repo");
    reveal_strlit("Name");
    reveal_strlit("EffName");
    reveal_strlit("Maintainer");
    reveal_strlit("Description");
}

/// The texts of a row of five cells.
fn five(a: String, b: String, c: String, d: String, e: String) -> (cells: Vec<String>)
    ensures
        texts(cells@) == seq![a@, b@, c@, d@, e@],
{
    let mut cells: Vec<String> = Vec::new();
    cells.push(a);
    cells.push(b);
    cells.push(c);
    cells.push(d);
    cells.push(e);
    assert(texts(cells@) =~= seq![a@, b@, c@, d@, e@]);
    cells
}

/// The cells of the row of one package.
pub fn package_cells(package: &Package) -> (cells: Vec<String>)
    ensures
        texts(cells@) == package_row(package@),
{
    let status = match &package.status {
        Some(status) => status.clone(),
        None => "No status".to_owned(),
    };
    let url = match &package.www {
        Some(pages) => if pages.len() > 0 {
            assert(texts(pages@)[0] == pages@[0]@);
            pages[0].clone()
        } else {
            String::new()
        },
        None => String::new(),
    };
    five(package.name.clone(), package.version.clone(), package.repo.clone(), status, url)
}

/// The cells of the row of one problem.
pub fn problem_cells(problem: &Problem) -> (cells: Vec<String>)
    ensures
        texts(cells@) == problem_row(problem@),
{
    five(
        problem.repo.clone(),
        problem.name.clone(),
        problem.effname.clone(),
        problem.maintainer.clone(),
        problem.problem.clone(),
    )
}

/// Whether every text of a row is plain.
pub fn plain_cells(cells: &Vec<String>) -> (answer: bool)
    ensures
        answer == all_plain(texts(cells@)),
{
    let mut i: usize = 0;
    while i < cells.len()
        invariant
            i <= cells.len(),
            forall|j: int| 0 <= j < i ==> plain(#[trigger] texts(cells@)[j]),
        decreases cells.len() - i,
    {
        assert(texts(cells@)[i as int] == cells@[i as int]@);
        if !is_plain(cells[i].as_str()) {
            return false;
        }
        i += 1;
    }
    true
}

/// Whether the rows of a list of packages hold plain texts only, so that
/// the packages can be laid out as a table.
pub fn plain_packages(packages: &Vec<Package>) -> (answer: bool)
    ensures
        answer == plain_rows(package_rows(package_views(packages@))),
{
    let ghost rows = package_rows(package_views(packages@));
    let mut i: usize = 0;
    while i < packages.len()
        invariant
            i <= packages.len(),
            rows == package_rows(package_views(packages@)),
            forall|j: int| 0 <= j < i ==> all_plain(#[trigger] rows[j]),
        decreases packages.len() - i,
    {
        assert(rows[i as int] == package_row(packages@[i as int]@));
        let cells = package_cells(&packages[i]);
        if !plain_cells(&cells) {
            return false;
        }
        i += 1;
    }
    true
}

/// Whether the rows of a list of problems hold plain texts only, so that
/// the problems can be laid out as a table.
pub fn plain_problems(problems: &Vec<Problem>) -> (answer: bool)
    ensures
        answer == plain_rows(problem_rows(problem_views(problems@))),
{
    let ghost rows = problem_rows(problem_views(problems@));
    let mut i: usize = 0;
    while i < problems.len()
        invariant
            i <= problems.len(),
            rows == problem_rows(problem_views(problems@)),
            forall|j: int| 0 <= j < i ==> all_plain(#[trigger] rows[j]),
        decreases problems.len() - i,
    {
        assert(rows[i as int] == problem_row(problems@[i as int]@));
        let cells = problem_cells(&problems[i]);
        if !plain_cells(&cells) {
            return false;
        }
        i += 1;
    }
    true
}

/// Lays results out as tables for the standard output.
pub struct TableFrontend(Stdout);

impl TableFrontend {
    /// The output that the frontend was made for.
    pub closed spec fn output(&self) -> Stdout {
        self.0
    }

    pub fn new(stdout: Stdout) -> (frontend: Self)
        ensures
            frontend.output() == stdout,
    {
        TableFrontend(stdout)
    }

    /// The output to print the tables on.
    pub fn stdout(&self) -> (stdout: &Stdout)
        ensures
            *stdout == self.output(),
    {
        &self.0
    }

    /// An empty table in the frontend's style.
    fn framed(&self) -> (table: Table)
        ensures
            table_titles(table) is None,
            table_rows(table) == Seq::<Seq<Seq<char>>>::empty(),
            table_frame(table) == table_style(),
    {
        let mut table = new_table();
        set_frame(&mut table, '|', '|', 1, 1);
        set_rule(&mut table, Line::Title, '-', '+');
        set_rule(&mut table, Line::Top, '-', '+');
        set_rule(&mut table, Line::Bottom, '-', '+');
        table
    }

    /// The table of a list of packages: one row for each, in order, under
    /// the titles for packages, in the frontend's style. The texts of the
    /// rows are to be plain: a table cannot take every text that holds an
    /// escape character.
    pub fn list_packages(&self, packages: Vec<Package>) -> (table: Table)
        requires
            plain_rows(package_rows(package_views(packages@))),
        ensures
            table_titles(table) == Some(cells_of(package_titles())),
            table_rows(table) == rows_of(package_rows(package_views(packages@))),
            table_frame(table) == table_style(),
    {
        let mut table = self.framed();
        let titles = five(
            "Name".to_owned(),
            "Version".to_owned(),
            "Repo".to_owned(),
            "Status".to_owned(),
            "URL".to_owned(),
        );
        proof {
            lemma_package_titles_plain();
        }
        title(&mut table, &titles);
        let ghost rows = package_rows(package_views(packages@));
        let mut i: usize = 0;
        while i < packages.len()
            invariant
                i <= packages.len(),
                rows == package_rows(package_views(packages@)),
                plain_rows(rows),
                table_titles(table) == Some(cells_of(package_titles())),
                table_rows(table) == rows_of(rows.take(i as int)),
                table_frame(table) == table_style(),
            decreases packages.len() - i,
        {
            let cells = package_cells(&packages[i]);
            assert(rows[i as int] == package_row(packages@[i as int]@));
            append(&mut table, &cells);
            proof {
                assert(rows[i as int] == package_row(packages@[i as int]@));
                assert(rows_of(rows.take(i as int + 1)) =~= rows_of(rows.take(i as int)).push(
                    cells_of(rows[i as int]),
                ));
            }
            i += 1;
        }
        assert(rows.take(i as int) =~= rows);
        table
    }

    /// The table of a list of problems: one row for each, in order, under
    /// the titles for problems, in the frontend's style. The texts of the
    /// rows are to be plain: a table cannot take every text that holds an
    /// escape character.
    pub fn list_problems(&self, problems: Vec<Problem>) -> (table: Table)
        requires
            plain_rows(problem_rows(problem_views(problems@))),
        ensures
            table_titles(table) == Some(cells_of(problem_titles())),
            table_rows(table) == rows_of(problem_rows(problem_views(problems@))),
            table_frame(table) == table_style(),
    {
        let mut table = self.framed();
        let titles = five(
            "Repo".to_owned(),
            "Name".to_owned(),
            "EffName".to_owned(),
            "Maintainer".to_owned(),
            "Description".to_owned(),
        );
        proof {
            lemma_problem_titles_plain();
        }
        title(&mut table, &titles);
        let ghost rows = problem_rows(problem_views(problems@));
        let mut i: usize = 0;
        while i < problems.len()
            invariant
                i <= problems.len(),
                rows == problem_rows(problem_views(problems@)),
                plain_rows(rows),
                table_titles(table) == Some(cells_of(problem_titles())),
                table_rows(table) == rows_of(rows.take(i as int)),
                table_frame(table) == table_style(),
            decreases problems.len() - i,
        {
            let cells = problem_cells(&problems[i]);
            assert(rows[i as int] == problem_row(problems@[i as int]@));
            append(&mut table, &cells);
            proof {
                assert(rows[i as int] == problem_row(problems@[i as int]@));
                assert(rows_of(rows.take(i as int + 1)) =~= rows_of(rows.take(i as int)).push(
                    cells_of(rows[i as int]),
                ));
            }
            i += 1;
        }
        assert(rows.take(i as int) =~= rows);
        table
    }
}

} // verus!
