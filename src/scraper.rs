use vstd::prelude::*;
use vstd::string::*;
use crate::page::{note_of, page_envelope, page_rows, PageNote, PageResult};
use crate::review::{rows_of, Review};

verus! {

/// The decimal digit `d`, for `d < 10`.
pub open spec fn digit_char(d: nat) -> char {
    if d == 0 { '0' }
    else if d == 1 { '1' }
    else if d == 2 { '2' }
    else if d == 3 { '3' }
    else if d == 4 { '4' }
    else if d == 5 { '5' }
    else if d == 6 { '6' }
    else if d == 7 { '7' }
    else if d == 8 { '8' }
    else { '9' }
}

/// The decimal notation of `n`, without leading zeros.
pub open spec fn decimal(n: nat) -> Seq<char>
    decreases n,
{
    if n < 10 {
        seq![digit_char(n)]
    } else {
        decimal(n / 10).push(digit_char(n % 10))
    }
}

fn digit_str(d: u32) -> (r: &'static str)
    requires
        d < 10,
    ensures
        r@ == seq![digit_char(d as nat)],
{
    proof {
        reveal_strlit("0");
        reveal_strlit("1");
        reveal_strlit("2");
        reveal_strlit("3");
        reveal_strlit("4");
        reveal_strlit("5");
        reveal_strlit("6");
        reveal_strlit("7");
        reveal_strlit("8");
        reveal_strlit("9");
    }
    if d == 0 { "0" }
    else if d == 1 { "1" }
    else if d == 2 { "2" }
    else if d == 3 { "3" }
    else if d == 4 { "4" }
    else if d == 5 { "5" }
    else if d == 6 { "6" }
    else if d == 7 { "7" }
    else if d == 8 { "8" }
    else { "9" }
}

/// Writes `n` in decimal.
pub fn decimal_string(n: u32) -> (r: String)
    ensures
        r@ == decimal(n as nat),
    decreases n,
{
    if n < 10 {
        String::from_str(digit_str(n))
    } else {
        let head = decimal_string(n / 10);
        head.concat(digit_str(n % 10))
    }
}

/// The feed URL of one page, for the default storefront (`None`) or for a
/// region.
pub open spec fn page_url_of(app_id: Seq<char>, region: Option<Seq<char>>, page: nat) -> Seq<char> {
    match region {
        Some(code) => "https://itunes.apple.com/"@ + code + "/rss/customerreviews/id="@ + app_id
            + "/sortBy=mostRecent/page="@ + decimal(page) + "/json"@,
        None => "https://itunes.apple.com/rss/customerreviews/id="@ + app_id
            + "/sortBy=mostRecent/page="@ + decimal(page) + "/json"@,
    }
}

/// The view of an optional region code.
pub open spec fn region_view(region: Option<String>) -> Option<Seq<char>> {
    match region {
        Some(code) => Some(code@),
        None => None,
    }
}

/// The regions that are fetched after the default storefront, in order.
pub open spec fn default_regions() -> Seq<Seq<char>> {
    seq!["cn"@, "us"@]
}

/// The number of pages fetched for each storefront by default.
pub const DEFAULT_PAGES: u32 = 10;

/// Fetches the reviews of one application: a fixed number of pages from the
/// default storefront, then as many from each region, in order.
pub struct AppStoreScraper {
    pub app_id: String,
    pub regions: Vec<String>,
    pub pages: u32,
}

impl AppStoreScraper {
    /// The region codes, in order.
    pub open spec fn region_codes(&self) -> Seq<Seq<char>> {
        self.regions@.map_values(|r: String| r@)
    }

    /// The number of requests of a whole run: one batch for the default
    /// storefront and one per region.
    pub open spec fn request_count(&self) -> nat {
        (self.pages * (self.regions@.len() + 1)) as nat
    }

    /// The number of requests fits in a `usize`.
    pub open spec fn wf(&self) -> bool {
        self.request_count() <= usize::MAX
    }

    /// The storefront of the `i`-th request: the default one for the first
    /// batch, then each region in turn.
    pub open spec fn region_at(&self, i: int) -> Option<Seq<char>> {
        let batch = self.batch_at(i);
        if batch == 0 {
            None
        } else {
            Some(self.region_codes()[batch - 1])
        }
    }

    /// The batch of the `i`-th request: zero for the default storefront,
    /// `k + 1` for the region at index `k`.
    pub open spec fn batch_at(&self, i: int) -> int {
        i / self.pages as int
    }

    /// The page number (from one) of the `i`-th request.
    pub open spec fn page_at(&self, i: int) -> nat {
        (i % self.pages as int + 1) as nat
    }

    /// The URL of the `i`-th request.
    pub open spec fn url_at(&self, i: int) -> Seq<char> {
        page_url_of(self.app_id@, self.region_at(i), self.page_at(i))
    }

    /// The number of requests of a whole run, or `None` where it does not fit
    /// in a `usize`.
    pub fn request_total(&self) -> (r: Option<usize>)
        ensures
            r is Some <==> self.wf(),
            r matches Some(n) ==> n == self.request_count(),
    {
        let pages = self.pages as usize;
        if pages == 0 {
            assert(self.request_count() == 0) by (nonlinear_arith)
                requires
                    self.pages == 0,
            ;
            return Some(0);
        }
        let n = self.regions.len();
        if n == usize::MAX {
            assert(self.request_count() > usize::MAX) by (nonlinear_arith)
                requires
                    self.pages >= 1,
                    self.regions@.len() == usize::MAX,
            ;
            return None;
        }
        pages.checked_mul(n + 1)
    }

    /// The index, from zero, of page `page` (from one) of batch `batch`; the
    /// default storefront is batch zero and region `k` is batch `k + 1`.
    pub open spec fn index_of(&self, batch: int, page: int) -> int {
        self.pages * batch + page - 1
    }

    /// The requests of a run are the pages `1..=pages` of the default
    /// storefront, then the same pages of each region in configured order,
    /// and nothing else: `pages * (1 + R)` requests for `R` regions.
    pub proof fn lemma_request_plan(&self)
        ensures
            self.request_count() == self.pages + self.pages * self.regions@.len(),
            forall|page: int|
                1 <= page <= self.pages ==> #[trigger] self.region_at(self.index_of(0, page)) is None
                    && self.page_at(self.index_of(0, page)) == page,
            forall|batch: int, page: int|
                1 <= batch <= self.regions@.len() && 1 <= page <= self.pages
                    ==> #[trigger] self.region_at(self.index_of(batch, page)) == Some(
                    self.region_codes()[batch - 1],
                ) && self.page_at(self.index_of(batch, page)) == page,
            forall|batch: int, page: int|
                0 <= batch <= self.regions@.len() && 1 <= page <= self.pages ==> 0
                    <= #[trigger] self.index_of(batch, page) < self.request_count(),
            forall|i: int|
                0 <= i < self.request_count() ==> 0 <= #[trigger] self.batch_at(i)
                    <= self.regions@.len() && i == self.index_of(
                    self.batch_at(i),
                    self.page_at(i) as int,
                ),
            forall|i: int|
                0 <= i < self.request_count() ==> 1 <= #[trigger] self.page_at(i) <= self.pages,
    {
        let d = self.pages as int;
        let n = self.regions@.len() as int;
        assert(self.request_count() == d + d * n) by (nonlinear_arith)
            requires
                self.request_count() == d * (n + 1),
        ;
        assert forall|batch: int, page: int| 0 <= batch <= n && 1 <= page <= d implies {
            &&& #[trigger] self.index_of(batch, page) / d == batch
            &&& self.index_of(batch, page) % d == page - 1
            &&& 0 <= self.index_of(batch, page) < self.request_count()
        } by {
            let x = self.index_of(batch, page);
            assert(x == batch * d + (page - 1)) by (nonlinear_arith)
                requires
                    x == d * batch + page - 1,
            ;
            vstd::arithmetic::div_mod::lemma_fundamental_div_mod_converse(x, d, batch, page - 1);
            assert(0 <= x < d * (n + 1)) by (nonlinear_arith)
                requires
                    x == batch * d + (page - 1),
                    0 <= batch <= n,
                    1 <= page <= d,
            ;
        }
        assert forall|page: int| 1 <= page <= d implies #[trigger] self.region_at(
            self.index_of(0, page),
        ) is None && self.page_at(self.index_of(0, page)) == page by {
            assert(self.index_of(0, page) / d == 0);
        }
        assert forall|batch: int, page: int| 1 <= batch <= n && 1 <= page <= d implies #[trigger] self.region_at(
            self.index_of(batch, page),
        ) == Some(self.region_codes()[batch - 1]) && self.page_at(self.index_of(batch, page)) == page by {
            assert(self.index_of(batch, page) / d == batch);
        }
        assert forall|i: int| 0 <= i < self.request_count() implies 0 <= #[trigger] self.batch_at(i)
            <= self.regions@.len() && i == self.index_of(self.batch_at(i), self.page_at(i) as int) by {
            self.lemma_index_splits(i);
        }
        assert forall|i: int| 0 <= i < self.request_count() implies 1 <= #[trigger] self.page_at(i)
            <= self.pages by {
            self.lemma_index_splits(i);
        }
    }

    proof fn lemma_index_splits(&self, i: int)
        requires
            0 <= i < self.request_count(),
        ensures
            0 <= self.batch_at(i) <= self.regions@.len(),
            1 <= self.page_at(i) <= self.pages,
            i == self.index_of(self.batch_at(i), self.page_at(i) as int),
    {
        let d = self.pages as int;
        let n = self.regions@.len() as int;
        assert(d > 0) by (nonlinear_arith)
            requires
                0 <= i < d * (n + 1),
                n >= 0,
        ;
        vstd::arithmetic::div_mod::lemma_fundamental_div_mod(i, d);
        assert(0 <= i / d <= n) by (nonlinear_arith)
            requires
                0 <= i < d * (n + 1),
                d > 0,
        ;
        assert(0 <= i % d < d) by (nonlinear_arith)
            requires
                d > 0,
        ;
    }

    /// A scraper with the default configuration: ten pages, from the default
    /// storefront and then from the regions `cn` and `us`.
    pub fn new(app_id: String) -> (r: AppStoreScraper)
        ensures
            r.app_id == app_id,
            r.region_codes() == default_regions(),
            r.pages == 10,
            r.wf(),
    {
        let regions: Vec<String> = vec![String::from_str("cn"), String::from_str("us")];
        let r = AppStoreScraper { app_id, regions, pages: DEFAULT_PAGES };
        assert(r.region_codes() =~= default_regions());
        r
    }

    /// A scraper with its own region list and page count.
    pub fn with_config(app_id: String, regions: Vec<String>, pages: u32) -> (r: AppStoreScraper)
        ensures
            r.app_id == app_id,
            r.regions == regions,
            r.pages == pages,
    {
        AppStoreScraper { app_id, regions, pages }
    }

    /// The URL of page `page` of the default storefront (`None`) or of a
    /// region.
    pub fn page_url(&self, region: &Option<String>, page: u32) -> (r: String)
        ensures
            r@ == page_url_of(self.app_id@, region_view(*region), page as nat),
    {
        match region {
            Some(code) => {
                let s = String::from_str("https://itunes.apple.com/");
                let s = s.concat(code.as_str());
                let s = s.concat("/rss/customerreviews/id=");
                let s = s.concat(self.app_id.as_str());
                let s = s.concat("/sortBy=mostRecent/page=");
                let s = s.concat(decimal_string(page).as_str());
                s.concat("/json")
            },
            None => {
                let s = String::from_str("https://itunes.apple.com/rss/customerreviews/id=");
                let s = s.concat(self.app_id.as_str());
                let s = s.concat("/sortBy=mostRecent/page=");
                let s = s.concat(decimal_string(page).as_str());
                s.concat("/json")
            },
        }
    }
}

/// One request of a run: the storefront, the page and the URL to fetch.
pub struct PageRequest {
    pub region: Option<String>,
    pub page: u32,
    pub url: String,
}

/// A failed run: the request whose transport failed.
pub struct ScrapeError {
    pub app_id: String,
    pub url: String,
}

/// The progress of one run of a scraper. The caller asks for the next
/// request, performs it, and records what came of it, until the run is done.
pub struct Crawl {
    pub scraper: AppStoreScraper,
    /// The number of requests recorded as received.
    pub step: usize,
    /// The records gathered so far, in request order.
    pub reviews: Vec<Review>,
    /// Whether a request failed, which ends the run.
    pub failed: bool,
    /// The rows of each received page, in request order.
    pub pages_read: Ghost<Seq<Seq<Seq<Seq<char>>>>>,
}

impl Crawl {
    pub open spec fn wf(&self) -> bool {
        &&& self.scraper.wf()
        &&& self.step <= self.scraper.request_count()
        &&& self.pages_read@.len() == self.step
        &&& !self.failed ==> rows_of(self.reviews@) == self.pages_read@.flatten_alt()
        &&& self.failed ==> self.reviews@.len() == 0 && self.step < self.scraper.request_count()
    }

    /// The run is over: a request failed, or every request was received.
    pub open spec fn is_done(&self) -> bool {
        self.failed || self.step == self.scraper.request_count()
    }

    pub fn new(scraper: AppStoreScraper) -> (r: Crawl)
        requires
            scraper.wf(),
        ensures
            r.wf(),
            r.scraper == scraper,
            r.step == 0,
            !r.failed,
            r.reviews@.len() == 0,
    {
        let r = Crawl {
            scraper,
            step: 0,
            reviews: Vec::new(),
            failed: false,
            pages_read: Ghost(Seq::empty()),
        };
        assert(rows_of(r.reviews@) =~= r.pages_read@.flatten_alt());
        r
    }

    /// The request to perform next, or `None` once the run is over.
    pub fn next_request(&self) -> (r: Option<PageRequest>)
        requires
            self.wf(),
        ensures
            r is None <==> self.is_done(),
            r matches Some(q) ==> {
                &&& region_view(q.region) == self.scraper.region_at(self.step as int)
                &&& q.page as nat == self.scraper.page_at(self.step as int)
                &&& q.url@ == self.scraper.url_at(self.step as int)
            },
    {
        if self.failed || self.step == self.request_total() {
            None
        } else {
            Some(self.current_request())
        }
    }

    /// The request at the current step.
    fn current_request(&self) -> (q: PageRequest)
        requires
            self.wf(),
            self.step < self.scraper.request_count(),
        ensures
            region_view(q.region) == self.scraper.region_at(self.step as int),
            q.page as nat == self.scraper.page_at(self.step as int),
            q.url@ == self.scraper.url_at(self.step as int),
    {
        let pages = self.scraper.pages;
        proof {
            let n = self.scraper.regions@.len() + 1;
            assert(pages > 0) by (nonlinear_arith)
                requires
                    self.step < pages * n,
                    self.step >= 0,
                    n > 0,
            ;
        }
        let batch = self.step / (pages as usize);
        let page = (self.step % (pages as usize) + 1) as u32;
        proof {
            let n = self.scraper.regions@.len() + 1;
            assert(batch < n) by (nonlinear_arith)
                requires
                    self.step < pages * n,
                    batch as int == self.step as int / (pages as int),
                    pages > 0,
            ;
        }
        let region: Option<String> = if batch == 0 {
            None
        } else {
            Some(self.scraper.regions[batch - 1].clone())
        };
        let url = self.scraper.page_url(&region, page);
        PageRequest { region, page, url }
    }

    fn request_total(&self) -> (r: usize)
        requires
            self.scraper.wf(),
        ensures
            r == self.scraper.request_count(),
    {
        self.scraper.request_total().unwrap()
    }

    /// Records what came of the current request. A transport failure ends
    /// the run and discards what was gathered; a received page adds its
    /// records after those gathered so far.
    pub fn record(&mut self, result: PageResult) -> (note: Option<PageNote>)
        requires
            old(self).wf(),
            !old(self).is_done(),
        ensures
            final(self).wf(),
            final(self).scraper == old(self).scraper,
            match result {
                PageResult::TransportFailed => {
                    &&& final(self).failed
                    &&& final(self).step == old(self).step
                    &&& final(self).reviews@.len() == 0
                    &&& note is None
                },
                PageResult::Received(parsed) => {
                    &&& !final(self).failed
                    &&& final(self).step == old(self).step + 1
                    &&& final(self).pages_read@ == old(self).pages_read@.push(page_rows(parsed))
                    &&& rows_of(final(self).reviews@) == rows_of(old(self).reviews@) + page_rows(
                        parsed,
                    )
                    &&& note matches Some(n) && note_of(parsed, n)
                },
            },
    {
        match result {
            PageResult::TransportFailed => {
                self.failed = true;
                self.reviews = Vec::new();
                None
            },
            PageResult::Received(parsed) => {
                let (mut items, note) = match page_envelope(&parsed) {
                    Some(envelope) => {
                        let items = envelope.to_reviews();
                        if items.len() == 0 {
                            (items, PageNote::NoEntries)
                        } else {
                            let n = items.len();
                            (items, PageNote::Entries(n))
                        }
                    },
                    None => {
                        let items: Vec<Review> = Vec::new();
                        assert(rows_of(items@) =~= Seq::empty());
                        (items, PageNote::Unreadable)
                    },
                };
                let ghost before = self.reviews@;
                let ghost read = self.pages_read@;
                self.reviews.append(&mut items);
                self.step = self.step + 1;
                self.pages_read = Ghost(read.push(page_rows(parsed)));
                proof {
                    assert(rows_of(self.reviews@) =~= rows_of(before) + page_rows(parsed));
                    assert(self.pages_read@.drop_last() =~= read);
                }
                Some(note)
            },
        }
    }

    /// Ends a finished run: every record gathered, in request order, or the
    /// failed request.
    pub fn finish(self) -> (r: Result<Vec<Review>, ScrapeError>)
        requires
            self.wf(),
            self.is_done(),
        ensures
            r is Err <==> self.failed,
            r matches Ok(reviews) ==> rows_of(reviews@) == self.pages_read@.flatten_alt(),
            r matches Err(e) ==> e.app_id@ == self.scraper.app_id@ && e.url@
                == self.scraper.url_at(self.step as int),
    {
        if self.failed {
            let request = self.current_request();
            Err(ScrapeError { app_id: self.scraper.app_id.clone(), url: request.url })
        } else {
            Ok(self.reviews)
        }
    }
}

} // verus!
