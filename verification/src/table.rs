//! Tables of rows as Markdown and as data for a Python plot.

use crate::jira::error::texts_view;
use vstd::prelude::*;
use vstd::string::*;

verus! {

/// Something that can be shown as one row of a table.
pub trait AsRow {
    /// Whether `row` holds the cells of this value.
    spec fn is_row(&self, row: Seq<Seq<char>>) -> bool;

    /// The cells of this value, in order.
    fn as_row(&self) -> (row: Vec<String>)
        ensures
            self.is_row(texts_view(row@)),
    ;
}

impl AsRow for Vec<String> {
    open spec fn is_row(&self, row: Seq<Seq<char>>) -> bool {
        row == texts_view(self@)
    }

    fn as_row(&self) -> (row: Vec<String>) {
        let mut row: Vec<String> = Vec::new();
        let mut i: usize = 0;
        while i < self.len()
            invariant
                0 <= i <= self.len(),
                row@.len() == i,
                forall|k: int| 0 <= k < i ==> row@[k]@ == self@[k]@,
            decreases self.len() - i,
        {
            row.push(self[i].clone());
            i += 1;
        }
        assert(texts_view(row@) =~= texts_view(self@));
        row
    }
}

/// The characters of each title.
pub open spec fn titles_view(titles: Seq<&str>) -> Seq<Seq<char>> {
    Seq::new(titles.len(), |i: int| titles[i]@)
}

/// The first `n` parts, each between `before` and `after`.
pub open spec fn wrapped(
    parts: Seq<Seq<char>>,
    before: Seq<char>,
    after: Seq<char>,
    n: nat,
) -> Seq<char>
    decreases n,
{
    if n == 0 || n > parts.len() {
        Seq::empty()
    } else {
        wrapped(parts, before, after, (n - 1) as nat) + before + parts[n - 1] + after
    }
}

/// `unit` once for each of `n` columns.
pub open spec fn per_column(unit: Seq<char>, n: nat) -> Seq<char> {
    crate::text::repeated(unit, n)
}

/// A row of a Markdown table: a bar, then each cell before a bar.
pub open spec fn md_row(cells: Seq<Seq<char>>) -> Seq<char> {
    "| "@ + wrapped(cells, Seq::empty(), " |"@, cells.len()) + "\n"@
}

/// The first `n` rows of a Markdown table.
pub open spec fn md_rows(rows: Seq<Seq<Seq<char>>>, n: nat) -> Seq<char>
    decreases n,
{
    if n == 0 || n > rows.len() {
        Seq::empty()
    } else {
        md_rows(rows, (n - 1) as nat) + md_row(rows[n - 1])
    }
}

/// A Markdown table: the titles, the separator row, the rows.
pub open spec fn md_table(titles: Seq<Seq<char>>, rows: Seq<Seq<Seq<char>>>) -> Seq<char> {
    "| "@ + wrapped(titles, Seq::empty(), " | "@, titles.len()) + "\n"@ + "|"@ + per_column(
        " --- |"@,
        titles.len(),
    ) + "\n"@ + md_rows(rows, rows.len())
}

/// A row of data for a plot: the cells in square brackets, a comma behind each.
pub open spec fn pyplot_row(cells: Seq<Seq<char>>) -> Seq<char> {
    "["@ + wrapped(cells, Seq::empty(), ", "@, cells.len()) + "], "@
}

/// The first `n` rows of data for a plot.
pub open spec fn pyplot_rows(rows: Seq<Seq<Seq<char>>>, n: nat) -> Seq<char>
    decreases n,
{
    if n == 0 || n > rows.len() {
        Seq::empty()
    } else {
        pyplot_rows(rows, (n - 1) as nat) + pyplot_row(rows[n - 1])
    }
}

/// Two Python assignments: the quoted titles as `labels`, the rows as `data`.
pub open spec fn pyplot_data(titles: Seq<Seq<char>>, rows: Seq<Seq<Seq<char>>>) -> Seq<char> {
    "labels = ["@ + wrapped(titles, "'"@, "', "@, titles.len()) + "]\n"@ + "data = ["@
        + pyplot_rows(rows, rows.len()) + "]\n"@
}

/// `rows` holds a row of each tuple, in order.
pub open spec fn rows_of<T: AsRow>(tuples: Seq<T>, rows: Seq<Seq<Seq<char>>>) -> bool {
    &&& rows.len() == tuples.len()
    &&& forall|i: int| 0 <= i < tuples.len() ==> (#[trigger] tuples[i]).is_row(rows[i])
}

fn write_wrapped(w: &mut String, cells: &Vec<String>, after: &str)
    ensures
        final(w)@ == old(w)@ + wrapped(texts_view(cells@), Seq::empty(), after@, cells@.len()),
{
    let ghost parts = texts_view(cells@);
    let mut i: usize = 0;
    assert(w@ =~= old(w)@ + wrapped(parts, Seq::empty(), after@, 0));
    while i < cells.len()
        invariant
            0 <= i <= cells.len(),
            parts == texts_view(cells@),
            w@ == old(w)@ + wrapped(parts, Seq::empty(), after@, i as nat),
        decreases cells.len() - i,
    {
        w.append(cells[i].as_str());
        w.append(after);
        i += 1;
        assert(w@ =~= old(w)@ + wrapped(parts, Seq::empty(), after@, i as nat));
    }
}

fn write_titles(w: &mut String, titles: &[&str], before: &str, after: &str)
    ensures
        final(w)@ == old(w)@ + wrapped(titles_view(titles@), before@, after@, titles@.len()),
{
    let ghost parts = titles_view(titles@);
    let mut i: usize = 0;
    assert(w@ =~= old(w)@ + wrapped(parts, before@, after@, 0));
    while i < titles.len()
        invariant
            0 <= i <= titles.len(),
            parts == titles_view(titles@),
            w@ == old(w)@ + wrapped(parts, before@, after@, i as nat),
        decreases titles.len() - i,
    {
        w.append(before);
        w.append(titles[i]);
        w.append(after);
        i += 1;
        assert(w@ =~= old(w)@ + wrapped(parts, before@, after@, i as nat));
    }
}

/// Writes a Markdown table with the given titles and one row for each tuple.
pub fn write_tuples_to_md_table<T: AsRow>(w: &mut String, titles: &[&str], tuples: &[T])
    ensures
        exists|rows: Seq<Seq<Seq<char>>>|
            rows_of(tuples@, rows) && final(w)@ == old(w)@ + md_table(titles_view(titles@), rows),
{
    let ghost names = titles_view(titles@);
    w.append("| ");
    write_titles(w, titles, "", " | ");
    w.append("\n");
    w.append("|");
    crate::text::push_repeated(w, " --- |", titles.len());
    w.append("\n");
    proof {
        reveal_strlit("");
        assert(""@ =~= Seq::<char>::empty());
    }
    let ghost head = w@;
    assert(head =~= old(w)@ + ("| "@ + wrapped(names, Seq::empty(), " | "@, names.len()) + "\n"@
        + "|"@ + per_column(" --- |"@, names.len()) + "\n"@));
    let ghost mut rows: Seq<Seq<Seq<char>>> = Seq::empty();
    let mut i: usize = 0;
    assert(w@ =~= head + md_rows(rows, 0));
    while i < tuples.len()
        invariant
            0 <= i <= tuples.len(),
            rows.len() == i,
            forall|k: int| 0 <= k < i ==> (#[trigger] tuples@[k]).is_row(rows[k]),
            w@ == head + md_rows(rows, i as nat),
        decreases tuples.len() - i,
    {
        let row = tuples[i].as_row();
        let ghost earlier = rows;
        proof {
            rows = rows.push(texts_view(row@));
            lemma_md_rows_prefix(earlier, rows, i as nat);
        }
        w.append("| ");
        write_wrapped(w, &row, " |");
        w.append("\n");
        i += 1;
        assert(w@ =~= head + md_rows(rows, i as nat));
    }
    assert(w@ =~= old(w)@ + md_table(names, rows));
    assert(rows_of(tuples@, rows));
}

/// The first `n` rows of a table do not depend on the rows behind them.
pub proof fn lemma_md_rows_prefix(a: Seq<Seq<Seq<char>>>, b: Seq<Seq<Seq<char>>>, n: nat)
    requires
        n <= a.len() <= b.len(),
        forall|k: int| 0 <= k < n ==> a[k] == b[k],
    ensures
        md_rows(a, n) == md_rows(b, n),
    decreases n,
{
    if n > 0 {
        lemma_md_rows_prefix(a, b, (n - 1) as nat);
    }
}

/// The first `n` rows of plot data do not depend on the rows behind them.
pub proof fn lemma_pyplot_rows_prefix(a: Seq<Seq<Seq<char>>>, b: Seq<Seq<Seq<char>>>, n: nat)
    requires
        n <= a.len() <= b.len(),
        forall|k: int| 0 <= k < n ==> a[k] == b[k],
    ensures
        pyplot_rows(a, n) == pyplot_rows(b, n),
    decreases n,
{
    if n > 0 {
        lemma_pyplot_rows_prefix(a, b, (n - 1) as nat);
    }
}

/// The Markdown table with the given titles and one row for each tuple.
pub fn tuples_to_md_table<T: AsRow>(titles: &[&str], tuples: &[T]) -> (table: String)
    ensures
        exists|rows: Seq<Seq<Seq<char>>>|
            rows_of(tuples@, rows) && table@ == md_table(titles_view(titles@), rows),
{
    let mut table = String::new();
    write_tuples_to_md_table(&mut table, titles, tuples);
    proof {
        let rows = choose|rows: Seq<Seq<Seq<char>>>|
            rows_of(tuples@, rows) && table@ == Seq::<char>::empty() + md_table(
                titles_view(titles@),
                rows,
            );
        assert(table@ =~= md_table(titles_view(titles@), rows));
    }
    table
}

/// Writes the titles and the tuples as data for a Python plot.
pub fn write_tuples_to_pyplot_data<T: AsRow>(w: &mut String, titles: &[&str], tuples: &[T])
    ensures
        exists|rows: Seq<Seq<Seq<char>>>|
            rows_of(tuples@, rows) && final(w)@ == old(w)@ + pyplot_data(
                titles_view(titles@),
                rows,
            ),
{
    let ghost names = titles_view(titles@);
    w.append("labels = [");
    write_titles(w, titles, "'", "', ");
    w.append("]\n");
    w.append("data = [");
    let ghost head = w@;
    assert(head =~= old(w)@ + ("labels = ["@ + wrapped(names, "'"@, "', "@, names.len())
        + "]\n"@ + "data = ["@));
    let ghost mut rows: Seq<Seq<Seq<char>>> = Seq::empty();
    let mut i: usize = 0;
    assert(w@ =~= head + pyplot_rows(rows, 0));
    while i < tuples.len()
        invariant
            0 <= i <= tuples.len(),
            rows.len() == i,
            forall|k: int| 0 <= k < i ==> (#[trigger] tuples@[k]).is_row(rows[k]),
            w@ == head + pyplot_rows(rows, i as nat),
        decreases tuples.len() - i,
    {
        let row = tuples[i].as_row();
        let ghost earlier = rows;
        proof {
            rows = rows.push(texts_view(row@));
            lemma_pyplot_rows_prefix(earlier, rows, i as nat);
        }
        w.append("[");
        write_wrapped(w, &row, ", ");
        w.append("], ");
        i += 1;
        assert(w@ =~= head + pyplot_rows(rows, i as nat));
    }
    w.append("]\n");
    assert(w@ =~= old(w)@ + pyplot_data(names, rows));
    assert(rows_of(tuples@, rows));
}

/// Whether `text` is what the value shows as.
pub open spec fn shows<T: std::fmt::Display>(value: &T, text: Seq<char>) -> bool {
    exists|s: String| to_string_from_display_ensures::<T>(value, s) && s@ == text
}

impl<T1: std::fmt::Display> AsRow for (T1,) {
    open spec fn is_row(&self, row: Seq<Seq<char>>) -> bool {
        &&& row.len() == 1
        &&& shows(&self.0, row[0])
    }

    fn as_row(&self) -> (row: Vec<String>) {
        let mut row: Vec<String> = Vec::new();
        row.push(self.0.to_string());
        row
    }
}

impl<T1: std::fmt::Display, T2: std::fmt::Display> AsRow for (T1, T2) {
    open spec fn is_row(&self, row: Seq<Seq<char>>) -> bool {
        &&& row.len() == 2
        &&& shows(&self.0, row[0])
        &&& shows(&self.1, row[1])
    }

    fn as_row(&self) -> (row: Vec<String>) {
        let mut row: Vec<String> = Vec::new();
        row.push(self.0.to_string());
        row.push(self.1.to_string());
        row
    }
}

impl<T1: std::fmt::Display, T2: std::fmt::Display, T3: std::fmt::Display> AsRow for (T1, T2, T3) {
    open spec fn is_row(&self, row: Seq<Seq<char>>) -> bool {
        &&& row.len() == 3
        &&& shows(&self.0, row[0])
        &&& shows(&self.1, row[1])
        &&& shows(&self.2, row[2])
    }

    fn as_row(&self) -> (row: Vec<String>) {
        let mut row: Vec<String> = Vec::new();
        row.push(self.0.to_string());
        row.push(self.1.to_string());
        row.push(self.2.to_string());
        row
    }
}

impl<T1: std::fmt::Display, T2: std::fmt::Display, T3: std::fmt::Display, T4: std::fmt::Display> AsRow for (T1, T2, T3, T4) {
    open spec fn is_row(&self, row: Seq<Seq<char>>) -> bool {
        &&& row.len() == 4
        &&& shows(&self.0, row[0])
        &&& shows(&self.1, row[1])
        &&& shows(&self.2, row[2])
        &&& shows(&self.3, row[3])
    }

    fn as_row(&self) -> (row: Vec<String>) {
        let mut row: Vec<String> = Vec::new();
        row.push(self.0.to_string());
        row.push(self.1.to_string());
        row.push(self.2.to_string());
        row.push(self.3.to_string());
        row
    }
}

impl<T1: std::fmt::Display, T2: std::fmt::Display, T3: std::fmt::Display, T4: std::fmt::Display, T5: std::fmt::Display> AsRow for (T1, T2, T3, T4, T5) {
    open spec fn is_row(&self, row: Seq<Seq<char>>) -> bool {
        &&& row.len() == 5
        &&& shows(&self.0, row[0])
        &&& shows(&self.1, row[1])
        &&& shows(&self.2, row[2])
        &&& shows(&self.3, row[3])
        &&& shows(&self.4, row[4])
    }

    fn as_row(&self) -> (row: Vec<String>) {
        let mut row: Vec<String> = Vec::new();
        row.push(self.0.to_string());
        row.push(self.1.to_string());
        row.push(self.2.to_string());
        row.push(self.3.to_string());
        row.push(self.4.to_string());
        row
    }
}

impl<T1: std::fmt::Display, T2: std::fmt::Display, T3: std::fmt::Display, T4: std::fmt::Display, T5: std::fmt::Display, T6: std::fmt::Display> AsRow for (T1, T2, T3, T4, T5, T6) {
    open spec fn is_row(&self, row: Seq<Seq<char>>) -> bool {
        &&& row.len() == 6
        &&& shows(&self.0, row[0])
        &&& shows(&self.1, row[1])
        &&& shows(&self.2, row[2])
        &&& shows(&self.3, row[3])
        &&& shows(&self.4, row[4])
        &&& shows(&self.5, row[5])
    }

    fn as_row(&self) -> (row: Vec<String>) {
        let mut row: Vec<String> = Vec::new();
        row.push(self.0.to_string());
        row.push(self.1.to_string());
        row.push(self.2.to_string());
        row.push(self.3.to_string());
        row.push(self.4.to_string());
        row.push(self.5.to_string());
        row
    }
}

impl<T1: std::fmt::Display, T2: std::fmt::Display, T3: std::fmt::Display, T4: std::fmt::Display, T5: std::fmt::Display, T6: std::fmt::Display, T7: std::fmt::Display> AsRow for (T1, T2, T3, T4, T5, T6, T7) {
    open spec fn is_row(&self, row: Seq<Seq<char>>) -> bool {
        &&& row.len() == 7
        &&& shows(&self.0, row[0])
        &&& shows(&self.1, row[1])
        &&& shows(&self.2, row[2])
        &&& shows(&self.3, row[3])
        &&& shows(&self.4, row[4])
        &&& shows(&self.5, row[5])
        &&& shows(&self.6, row[6])
    }

    fn as_row(&self) -> (row: Vec<String>) {
        let mut row: Vec<String> = Vec::new();
        row.push(self.0.to_string());
        row.push(self.1.to_string());
        row.push(self.2.to_string());
        row.push(self.3.to_string());
        row.push(self.4.to_string());
        row.push(self.5.to_string());
        row.push(self.6.to_string());
        row
    }
}

impl<T1: std::fmt::Display, T2: std::fmt::Display, T3: std::fmt::Display, T4: std::fmt::Display, T5: std::fmt::Display, T6: std::fmt::Display, T7: std::fmt::Display, T8: std::fmt::Display> AsRow for (T1, T2, T3, T4, T5, T6, T7, T8) {
    open spec fn is_row(&self, row: Seq<Seq<char>>) -> bool {
        &&& row.len() == 8
        &&& shows(&self.0, row[0])
        &&& shows(&self.1, row[1])
        &&& shows(&self.2, row[2])
        &&& shows(&self.3, row[3])
        &&& shows(&self.4, row[4])
        &&& shows(&self.5, row[5])
        &&& shows(&self.6, row[6])
        &&& shows(&self.7, row[7])
    }

    fn as_row(&self) -> (row: Vec<String>) {
        let mut row: Vec<String> = Vec::new();
        row.push(self.0.to_string());
        row.push(self.1.to_string());
        row.push(self.2.to_string());
        row.push(self.3.to_string());
        row.push(self.4.to_string());
        row.push(self.5.to_string());
        row.push(self.6.to_string());
        row.push(self.7.to_string());
        row
    }
}

} // verus!
