use vstd::prelude::*;

use crate::platform::PlatformType;

verus! {

/// What a trending entry holds, as mathematical values.
pub struct TrendingView {
    pub title: Seq<char>,
    pub url: Seq<char>,
    pub trend: Option<Seq<char>>,
}

/// One normalised trending entry. `trend` is never an empty string: an empty
/// or missing heat signal upstream is `None`.
#[derive(Debug, Clone)]
pub struct TrendingRes {
    pub title: String,
    pub url: String,
    pub trend: Option<String>,
}

impl View for TrendingRes {
    type V = TrendingView;

    open spec fn view(&self) -> TrendingView {
        TrendingView { title: self.title@, url: self.url@, trend: opt_text(self.trend) }
    }
}

/// A normalised listing: the platform and its entries, in the platform's order.
#[derive(Debug, Clone)]
pub struct TrendingsRes {
    pub platform: PlatformType,
    pub trendings: Vec<TrendingRes>,
}

impl TrendingsRes {
    /// The entries as mathematical values.
    pub open spec fn items(&self) -> Seq<TrendingView> {
        self.trendings@.map_values(|t: TrendingRes| t@)
    }
}

/// The text held by an optional string.
pub open spec fn opt_text(o: Option<String>) -> Option<Seq<char>> {
    match o {
        Some(s) => Some(s@),
        None => None,
    }
}

/// An optional upstream text with the empty string collapsed into absence.
pub open spec fn non_empty_text(o: Option<String>) -> Option<Seq<char>> {
    match o {
        Some(s) => if s@.len() > 0 { Some(s@) } else { None },
        None => None,
    }
}

/// Keeps a present, non-empty string and turns an empty one into `None`.
pub fn not_empty_str(text: Option<String>) -> (r: Option<String>)
    ensures
        opt_text(r) == non_empty_text(text),
{
    let empty = match &text {
        Some(s) => s.as_str().is_empty(),
        None => true,
    };
    if empty {
        None
    } else {
        text
    }
}

/// Builds a normalised entry from its title, url and raw heat signal.
pub fn trending_entry(title: String, url: String, trend: Option<String>) -> (r: TrendingRes)
    ensures
        r@ == (TrendingView { title: title@, url: url@, trend: non_empty_text(trend) }),
{
    TrendingRes { title, url, trend: not_empty_str(trend) }
}

/// The page of a search: the first one, or an explicit page number.
#[derive(Debug, Clone, Copy, PartialEq, Eq, Structural)]
pub enum PageParam {
    First,
    Other(u32),
}

impl From<u32> for PageParam {
    fn from(value: u32) -> (r: PageParam) {
        PageParam::Other(value)
    }
}

impl vstd::std_specs::convert::FromSpecImpl<u32> for PageParam {
    open spec fn obeys_from_spec() -> bool {
        true
    }

    open spec fn from_spec(v: u32) -> PageParam {
        PageParam::Other(v)
    }
}

/// A search query: a keyword, and optionally a page and a page size.
#[derive(Debug, Clone)]
pub struct SearchReq {
    pub keyword: String,
    pub page: Option<PageParam>,
    pub size: Option<u32>,
}

impl SearchReq {
    pub fn new(keyword: &str) -> (r: SearchReq)
        ensures
            r.keyword@ == keyword@,
            r.page is None,
            r.size is None,
    {
        SearchReq { keyword: String::from_str(keyword), page: None, size: None }
    }

    pub fn with_page(self, page: PageParam) -> (r: SearchReq)
        ensures
            r.keyword == self.keyword,
            r.page == Some(page),
            r.size == self.size,
    {
        SearchReq { page: Some(page), ..self }
    }

    pub fn with_size(self, size: u32) -> (r: SearchReq)
        ensures
            r.keyword == self.keyword,
            r.page == self.page,
            r.size == Some(size),
    {
        SearchReq { size: Some(size), ..self }
    }
}

/// One normalised search hit; the media lists are `None` when the source
/// gave none, never an empty list in their place.
#[derive(Debug, Clone)]
pub struct SearchRes {
    pub title: String,
    pub url: String,
    pub time: Option<u64>,
    pub images: Option<Vec<String>>,
    pub videos: Option<Vec<String>>,
    pub audios: Option<Vec<String>>,
}

/// A normalised search result list.
#[derive(Debug, Clone)]
pub struct SearchesRes {
    pub platform: PlatformType,
    pub result: Vec<SearchRes>,
}

} // verus!
