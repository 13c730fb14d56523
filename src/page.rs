use vstd::prelude::*;
use crate::json::{member, Json, Member};
use crate::review::{entry_row, feed_rows, rows_of, AppStoreReviews, Review};

verus! {

/// What came of one request.
pub enum PageResult {
    /// No response came back.
    TransportFailed,
    /// A response came back: the JSON document that its body parsed to, or
    /// `None` where the body was not JSON (or not text).
    Received(Option<Json>),
}

/// What a received page amounted to, for the operator's diagnostics.
pub enum PageNote {
    /// The page held this many entries, at least one.
    Entries(usize),
    /// The page was a feed document with no entries.
    NoEntries,
    /// The page was not a feed document and is counted as holding no
    /// entries.
    Unreadable,
}

/// The rows that a received page contributes: those of its entries, or none
/// where it is not a feed document.
pub open spec fn page_rows(doc: Option<Json>) -> Seq<Seq<Seq<char>>> {
    match doc {
        Some(j) => match feed_rows(j) {
            Some(rows) => rows,
            None => Seq::empty(),
        },
        None => Seq::empty(),
    }
}

/// The note on a received page.
pub open spec fn note_of(doc: Option<Json>, note: PageNote) -> bool {
    match doc {
        Some(j) => match feed_rows(j) {
            Some(rows) => if rows.len() == 0 {
                note is NoEntries
            } else {
                note == PageNote::Entries(rows.len() as usize)
            },
            None => note is Unreadable,
        },
        None => note is Unreadable,
    }
}

/// Reads a received page: its envelope, or `None` where it is not a feed
/// document.
pub fn page_envelope(doc: &Option<Json>) -> (r: Option<AppStoreReviews>)
    ensures
        r is None <==> (doc is None || feed_rows(doc->0) is None),
        r matches Some(e) ==> page_rows(*doc) == e.rows(),
{
    match doc {
        Some(j) => AppStoreReviews::from_json(j),
        None => None,
    }
}

/// The normalized records of one received page, one per entry and in entry
/// order; none where the page is not a feed document.
pub fn page_reviews(doc: &Option<Json>) -> (r: Vec<Review>)
    ensures
        rows_of(r@) == page_rows(*doc),
{
    match page_envelope(doc) {
        Some(envelope) => envelope.to_reviews(),
        None => {
            let r: Vec<Review> = Vec::new();
            assert(rows_of(r@) =~= Seq::empty());
            r
        },
    }
}

/// A feed document whose `entry` holds `N` well-formed entries gives exactly
/// `N` records, in entry order, each made of that entry's labels (empty where
/// a field is absent) and the App Store channel.
pub proof fn lemma_page_records(ms: Vec<Member>, fs: Vec<Member>, es: Vec<Json>)
    requires
        member(ms@, "feed"@) == Some(Json::Object(fs)),
        member(fs@, "entry"@) == Some(Json::Array(es)),
        forall|i: int| 0 <= i < es@.len() ==> (#[trigger] entry_row(es@[i])) is Some,
    ensures
        page_rows(Some(Json::Object(ms))).len() == es@.len(),
        forall|i: int|
            0 <= i < es@.len() ==> Some(page_rows(Some(Json::Object(ms)))[i]) == #[trigger] entry_row(
                es@[i],
            ),
{
}

/// A feed document without `entry`, or with an empty one, is a page with no
/// records, read without error; so is a page that is not a feed document at
/// all, or whose body was not JSON.
pub proof fn lemma_empty_pages(ms: Vec<Member>, fs: Vec<Member>, doc: Json)
    requires
        member(ms@, "feed"@) == Some(Json::Object(fs)),
        match member(fs@, "entry"@) {
            None => true,
            Some(Json::Array(es)) => es@.len() == 0,
            Some(_) => false,
        },
    ensures
        feed_rows(Json::Object(ms)) == Some(Seq::<Seq<Seq<char>>>::empty()),
        page_rows(Some(Json::Object(ms))).len() == 0,
        feed_rows(doc) is None ==> page_rows(Some(doc)).len() == 0,
        page_rows(None).len() == 0,
{
    if let Some(Json::Array(es)) = member(fs@, "entry"@) {
        assert(es@.map_values(|e: Json| entry_row(e)->0) =~= Seq::empty());
    }
}

} // verus!
