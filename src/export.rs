use vstd::prelude::*;
use vstd::string::*;
use crate::review::{rows_of, Review};

verus! {

/// An application to fetch, with the display name its output is named after.
pub struct App {
    pub id: String,
    pub name: String,
}

/// The file that the reviews of the application named `name` go to.
pub open spec fn output_path_of(name: Seq<char>) -> Seq<char> {
    name + "-reviews.csv"@
}

impl App {
    pub fn new(id: &str, name: &str) -> (r: App)
        ensures
            r.id@ == id@,
            r.name@ == name@,
    {
        App { id: String::from_str(id), name: String::from_str(name) }
    }

    /// The output file's path: the display name, verbatim, then
    /// `-reviews.csv`.
    pub fn output_path(&self) -> (r: String)
        ensures
            r@ == output_path_of(self.name@),
    {
        self.name.clone().concat("-reviews.csv")
    }
}

/// The header row: the names of the seven columns.
pub open spec fn header_row() -> Seq<Seq<char>> {
    seq!["ID"@, "Score"@, "Name"@, "Title"@, "Text"@, "Updated"@, "Channel"@]
}

/// The rows of the output: the header, then one row per record in list order.
pub open spec fn export_rows_of(reviews: Seq<Review>) -> Seq<Seq<Seq<char>>> {
    seq![header_row()] + reviews.map_values(|v: Review| v.row())
}

/// The strings of a row of the output.
pub open spec fn row_view(row: Vec<String>) -> Seq<Seq<char>> {
    row@.map_values(|s: String| s@)
}

/// The header row, as strings.
pub fn header() -> (r: Vec<String>)
    ensures
        row_view(r) == header_row(),
{
    let r: Vec<String> = vec![
        String::from_str("ID"),
        String::from_str("Score"),
        String::from_str("Name"),
        String::from_str("Title"),
        String::from_str("Text"),
        String::from_str("Updated"),
        String::from_str("Channel"),
    ];
    assert(row_view(r) =~= header_row());
    r
}

/// Every row that the output file holds, in order: the header, then the
/// fields of each record, verbatim and in column order.
pub fn export_rows(reviews: &Vec<Review>) -> (r: Vec<Vec<String>>)
    ensures
        r@.len() == reviews@.len() + 1,
        r@.map_values(|row: Vec<String>| row_view(row)) == export_rows_of(reviews@),
{
    let mut r: Vec<Vec<String>> = Vec::new();
    r.push(header());
    let mut i: usize = 0;
    while i < reviews.len()
        invariant
            i <= reviews@.len(),
            r@.len() == i + 1,
            row_view(r@[0]) == header_row(),
            forall|j: int| 0 <= j < i ==> #[trigger] row_view(r@[j + 1]) == reviews@[j].row(),
        decreases reviews@.len() - i,
    {
        let fields = reviews[i].fields();
        assert(row_view(fields) =~= reviews@[i as int].row());
        r.push(fields);
        i = i + 1;
    }
    assert forall|k: int| 1 <= k < r@.len() implies #[trigger] row_view(r@[k])
        == reviews@[k - 1].row() by {
        assert(row_view(r@[(k - 1) + 1]) == reviews@[k - 1].row());
    }
    assert(r@.map_values(|row: Vec<String>| row_view(row)) =~= export_rows_of(reviews@));
    r
}

/// The number of records over a list of pages, each given by its rows.
pub open spec fn record_total(pages: Seq<Seq<Seq<Seq<char>>>>) -> nat
    decreases pages.len(),
{
    if pages.len() == 0 {
        0
    } else {
        record_total(pages.drop_last()) + pages.last().len()
    }
}

/// Where the records are those of a list of pages, concatenated in order,
/// the output holds the header and then exactly one row per record fetched
/// over all pages: nothing is dropped or merged, and each row is that record's
/// fields verbatim.
pub proof fn lemma_output_rows(reviews: Seq<Review>, pages: Seq<Seq<Seq<Seq<char>>>>)
    requires
        rows_of(reviews) == pages.flatten_alt(),
    ensures
        export_rows_of(reviews).len() == 1 + record_total(pages),
        export_rows_of(reviews)[0] == header_row(),
        export_rows_of(reviews).drop_first() == pages.flatten_alt(),
{
    lemma_flatten_length(pages);
    assert(export_rows_of(reviews).drop_first() =~= rows_of(reviews));
}

proof fn lemma_flatten_length(pages: Seq<Seq<Seq<Seq<char>>>>)
    ensures
        pages.flatten_alt().len() == record_total(pages),
    decreases pages.len(),
{
    if pages.len() > 0 {
        lemma_flatten_length(pages.drop_last());
    }
}

} // verus!
