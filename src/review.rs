use vstd::prelude::*;
use vstd::string::*;
use crate::json::{deref_json, get_member, member, Json, Member};

verus! {

/// The label that marks every record as coming from the App Store.
pub open spec fn channel_label() -> Seq<char> {
    "App Store"@
}

/// The seven columns of a record, in the order in which they are written.
pub open spec fn row_of(
    id: Seq<char>,
    score: Seq<char>,
    name: Seq<char>,
    title: Seq<char>,
    text: Seq<char>,
    updated: Seq<char>,
    channel: Seq<char>,
) -> Seq<Seq<char>> {
    seq![id, score, name, title, text, updated, channel]
}

/// The rows of a list of records.
pub open spec fn rows_of(reviews: Seq<Review>) -> Seq<Seq<Seq<char>>> {
    reviews.map_values(|v: Review| v.row())
}

/// A normalized review: every field is kept as the feed wrote it.
pub struct Review {
    pub id: String,
    pub score: String,
    pub name: String,
    pub title: String,
    pub text: String,
    pub updated: String,
    pub channel: String,
}

impl Review {
    /// The record as a row of seven strings.
    pub open spec fn row(&self) -> Seq<Seq<char>> {
        row_of(
            self.id@,
            self.score@,
            self.name@,
            self.title@,
            self.text@,
            self.updated@,
            self.channel@,
        )
    }

    pub fn new(
        id: String,
        score: String,
        name: String,
        title: String,
        text: String,
        updated: String,
        channel: String,
    ) -> (r: Review)
        ensures
            r.row() == row_of(id@, score@, name@, title@, text@, updated@, channel@),
    {
        Review { id, score, name, title, text, updated, channel }
    }

    /// Normalizes one feed entry: each field is the entry's wrapped label
    /// and the channel is the App Store label.
    pub fn from(review: &AppStoreReview) -> (r: Review)
        ensures
            r.row() == review.row(),
    {
        Review::new(
            review.id.label.clone(),
            review.score.label.clone(),
            review.author.name.label.clone(),
            review.title.label.clone(),
            review.content.label.clone(),
            review.updated.label.clone(),
            String::from_str("App Store"),
        )
    }

    /// The seven fields, in column order.
    pub fn fields(&self) -> (r: Vec<String>)
        ensures
            r@.len() == 7,
            forall|i: int| 0 <= i < 7 ==> #[trigger] r@[i]@ == self.row()[i],
    {
        let ghost row = self.row();
        let mut r: Vec<String> = Vec::new();
        r.push(self.id.clone());
        r.push(self.score.clone());
        r.push(self.name.clone());
        r.push(self.title.clone());
        r.push(self.text.clone());
        r.push(self.updated.clone());
        r.push(self.channel.clone());
        assert(forall|i: int| 0 <= i < 7 ==> #[trigger] r@[i]@ == row[i]);
        r
    }
}

/// A scalar of the feed, wrapped as `{ "label": ... }`.
pub struct AppStoreReviewEntry {
    pub label: String,
}

impl AppStoreReviewEntry {
    /// The label that stands for an absent field.
    pub fn empty() -> (r: AppStoreReviewEntry)
        ensures
            r.label@ == Seq::<char>::empty(),
    {
        AppStoreReviewEntry { label: String::new() }
    }
}

/// The author of an entry, whose display name is itself wrapped.
pub struct AppStoreReviewAuthor {
    pub name: AppStoreReviewEntry,
}

/// One entry of the feed, in the storefront's own shape.
pub struct AppStoreReview {
    pub id: AppStoreReviewEntry,
    pub score: AppStoreReviewEntry,
    pub author: AppStoreReviewAuthor,
    pub title: AppStoreReviewEntry,
    pub content: AppStoreReviewEntry,
    pub updated: AppStoreReviewEntry,
}

impl AppStoreReview {
    /// The row that the normalized record of this entry has.
    pub open spec fn row(&self) -> Seq<Seq<char>> {
        row_of(
            self.id.label@,
            self.score.label@,
            self.author.name.label@,
            self.title.label@,
            self.content.label@,
            self.updated.label@,
            channel_label(),
        )
    }
}

/// The `feed` object of an envelope: its entries, in feed order.
pub struct AppStoreReviewFeed {
    pub entry: Vec<AppStoreReview>,
}

/// A whole response document.
pub struct AppStoreReviews {
    pub feed: AppStoreReviewFeed,
}

impl AppStoreReviews {
    /// The envelope with no entries, which stands for a page that could not
    /// be read.
    pub fn empty() -> (r: AppStoreReviews)
        ensures
            r.feed.entry@.len() == 0,
    {
        AppStoreReviews { feed: AppStoreReviewFeed { entry: Vec::new() } }
    }

    /// The rows of the normalized records of the entries, in entry order.
    pub open spec fn rows(&self) -> Seq<Seq<Seq<char>>> {
        self.feed.entry@.map_values(|e: AppStoreReview| e.row())
    }

    /// Normalizes every entry of the envelope, keeping their order.
    pub fn to_reviews(&self) -> (r: Vec<Review>)
        ensures
            rows_of(r@) == self.rows(),
    {
        let entries = &self.feed.entry;
        let mut r: Vec<Review> = Vec::new();
        let mut i: usize = 0;
        while i < entries.len()
            invariant
                i <= entries@.len(),
                r@.len() == i,
                forall|j: int| 0 <= j < i ==> #[trigger] r@[j].row() == entries@[j].row(),
            decreases entries@.len() - i,
        {
            r.push(Review::from(&entries[i]));
            i = i + 1;
        }
        assert(rows_of(r@) =~= self.rows());
        r
    }
}

/// The text of a label wrapper `{ "label": ... }`: empty where the wrapper
/// or its label is absent, `None` where either has another shape.
pub open spec fn label_of(v: Option<Json>) -> Option<Seq<char>> {
    match v {
        None => Some(Seq::empty()),
        Some(Json::Object(ms)) => match member(ms@, "label"@) {
            None => Some(Seq::empty()),
            Some(Json::Str(text)) => Some(text@),
            Some(_) => None,
        },
        Some(_) => None,
    }
}

/// The display name of an author `{ "name": { "label": ... } }`, with the
/// same defaults as `label_of`.
pub open spec fn author_name_of(v: Option<Json>) -> Option<Seq<char>> {
    match v {
        None => Some(Seq::empty()),
        Some(Json::Object(ms)) => label_of(member(ms@, "name"@)),
        Some(_) => None,
    }
}

/// The score of an entry is under `im:rating`, or else under `score`.
pub open spec fn score_member(ms: Seq<Member>) -> Option<Json> {
    match member(ms, "im:rating"@) {
        Some(v) => Some(v),
        None => member(ms, "score"@),
    }
}

/// The row of the record that a feed entry gives, or `None` where the entry
/// is not an object or one of its fields has the wrong shape.
pub open spec fn entry_row(v: Json) -> Option<Seq<Seq<char>>> {
    match v {
        Json::Object(ms) => {
            let id = label_of(member(ms@, "id"@));
            let score = label_of(score_member(ms@));
            let name = author_name_of(member(ms@, "author"@));
            let title = label_of(member(ms@, "title"@));
            let content = label_of(member(ms@, "content"@));
            let updated = label_of(member(ms@, "updated"@));
            if id is Some && score is Some && name is Some && title is Some && content is Some
                && updated is Some {
                Some(
                    row_of(
                        id->0,
                        score->0,
                        name->0,
                        title->0,
                        content->0,
                        updated->0,
                        channel_label(),
                    ),
                )
            } else {
                None
            }
        },
        _ => None,
    }
}

/// The rows of the entries of a list, or `None` where one entry is malformed.
pub open spec fn entries_rows(es: Seq<Json>) -> Option<Seq<Seq<Seq<char>>>> {
    if forall|i: int| 0 <= i < es.len() ==> (#[trigger] entry_row(es[i])) is Some {
        Some(es.map_values(|e: Json| entry_row(e)->0))
    } else {
        None
    }
}

/// The rows of the records of a feed document
/// `{ "feed": { "entry": [ ... ] } }`: none where `feed` or `entry` is
/// absent, `None` where the document has another shape.
pub open spec fn feed_rows(doc: Json) -> Option<Seq<Seq<Seq<char>>>> {
    match doc {
        Json::Object(ms) => match member(ms@, "feed"@) {
            None => Some(Seq::empty()),
            Some(Json::Object(fs)) => match member(fs@, "entry"@) {
                None => Some(Seq::empty()),
                Some(Json::Array(es)) => entries_rows(es@),
                Some(_) => None,
            },
            Some(_) => None,
        },
        _ => None,
    }
}

/// Reads a label wrapper.
fn read_label(v: Option<&Json>) -> (r: Option<AppStoreReviewEntry>)
    ensures
        r is None <==> label_of(deref_json(v)) is None,
        r matches Some(e) ==> label_of(deref_json(v)) == Some(e.label@),
{
    match v {
        None => Some(AppStoreReviewEntry::empty()),
        Some(Json::Object(ms)) => match get_member(ms, "label") {
            None => Some(AppStoreReviewEntry::empty()),
            Some(Json::Str(text)) => Some(AppStoreReviewEntry { label: text.clone() }),
            Some(_) => None,
        },
        Some(_) => None,
    }
}

/// Reads an author.
fn read_author(v: Option<&Json>) -> (r: Option<AppStoreReviewAuthor>)
    ensures
        r is None <==> author_name_of(deref_json(v)) is None,
        r matches Some(a) ==> author_name_of(deref_json(v)) == Some(a.name.label@),
{
    match v {
        None => Some(AppStoreReviewAuthor { name: AppStoreReviewEntry::empty() }),
        Some(Json::Object(ms)) => match read_label(get_member(ms, "name")) {
            Some(name) => Some(AppStoreReviewAuthor { name }),
            None => None,
        },
        Some(_) => None,
    }
}

impl AppStoreReview {
    /// Reads one feed entry; absent fields are empty labels.
    pub fn from_json(v: &Json) -> (r: Option<AppStoreReview>)
        ensures
            r is None <==> entry_row(*v) is None,
            r matches Some(e) ==> entry_row(*v) == Some(e.row()),
    {
        match v {
            Json::Object(ms) => {
                let rating = get_member(ms, "im:rating");
                let score_value = match rating {
                    Some(x) => Some(x),
                    None => get_member(ms, "score"),
                };
                let id = read_label(get_member(ms, "id"));
                let score = read_label(score_value);
                let author = read_author(get_member(ms, "author"));
                let title = read_label(get_member(ms, "title"));
                let content = read_label(get_member(ms, "content"));
                let updated = read_label(get_member(ms, "updated"));
                match (id, score, author, title, content, updated) {
                    (Some(id), Some(score), Some(author), Some(title), Some(content), Some(updated)) => {
                        Some(AppStoreReview { id, score, author, title, content, updated })
                    },
                    _ => None,
                }
            },
            _ => None,
        }
    }
}

impl AppStoreReviews {
    /// Reads a feed document: no entries where `feed` or `entry` is absent,
    /// `None` where the document, or one of its entries, has another shape.
    pub fn from_json(doc: &Json) -> (r: Option<AppStoreReviews>)
        ensures
            r is None <==> feed_rows(*doc) is None,
            r matches Some(e) ==> feed_rows(*doc) == Some(e.rows()),
    {
        match doc {
            Json::Object(ms) => match get_member(ms, "feed") {
                None => {
                    let r = AppStoreReviews::empty();
                    assert(r.rows() =~= Seq::empty());
                    Some(r)
                },
                Some(Json::Object(fs)) => match get_member(fs, "entry") {
                    None => {
                        let r = AppStoreReviews::empty();
                        assert(r.rows() =~= Seq::empty());
                        Some(r)
                    },
                    Some(Json::Array(es)) => {
                        let mut entry: Vec<AppStoreReview> = Vec::new();
                        let mut i: usize = 0;
                        assert(feed_rows(*doc) == entries_rows(es@));
                        while i < es.len()
                            invariant
                                feed_rows(*doc) == entries_rows(es@),
                                i <= es@.len(),
                                entry@.len() == i,
                                forall|j: int| 0 <= j < i ==> (#[trigger] entry_row(es@[j])) == Some(entry@[j].row()),
                            decreases es@.len() - i,
                        {
                            match AppStoreReview::from_json(&es[i]) {
                                Some(e) => entry.push(e),
                                None => {
                                    assert(entry_row(es@[i as int]) is None);
                                    assert(entries_rows(es@) is None);
                                    return None;
                                },
                            }
                            i = i + 1;
                        }
                        let r = AppStoreReviews { feed: AppStoreReviewFeed { entry } };
                        assert(r.rows() =~= es@.map_values(|e: Json| entry_row(e)->0));
                        Some(r)
                    },
                    Some(_) => None,
                },
                Some(_) => None,
            },
            _ => None,
        }
    }
}

} // verus!
