use vstd::prelude::*;

use crate::common::{TrendingRes, TrendingView, TrendingsRes};
use crate::platform::PlatformType;

verus! {

/// The hot-ranking endpoint of Tencent News.
pub const TRENDING_ENDPOINT: &'static str =
    "https://r.inews.qq.com/gw/event/hot_ranking_list?page_size=30";

/// Tencent's hot-ranking response: groups of news entries.
#[derive(Debug, Clone)]
pub struct TencentRes {
    pub list: Vec<TencentList>,
}

#[derive(Debug, Clone)]
pub struct TencentList {
    pub news: Vec<TencentNews>,
}

/// One news entry; `url` is the short url, which some entries lack.
#[derive(Debug, Clone)]
pub struct TencentNews {
    pub id: String,
    pub title: String,
    pub url: Option<String>,
    pub ranking: Option<u32>,
}

/// The decimal digit `d`.
pub open spec fn digit_char(d: nat) -> char {
    seq!['0', '1', '2', '3', '4', '5', '6', '7', '8', '9'][d as int]
}

/// The decimal rendering of `n`: its digits, most significant first, with no
/// sign and no leading zero.
pub open spec fn decimal(n: nat) -> Seq<char>
    decreases n,
{
    if n < 10 {
        seq![digit_char(n)]
    } else {
        decimal(n / 10).push(digit_char(n % 10))
    }
}

/// Relies on `u32`'s `ToString`, which goes through its `Display`: the number
/// in decimal digits, without sign or padding.
#[verifier::external_body]
fn decimal_string(n: u32) -> (r: String)
    ensures
        r@ == decimal(n as nat),
{
    n.to_string()
}

/// The normalised form of an entry that has a short url: the ranking, when
/// present, rendered in decimal as heat signal.
pub open spec fn tencent_item(n: TencentNews) -> TrendingView {
    TrendingView {
        title: n.title@,
        url: n.url->0@,
        trend: match n.ranking {
            Some(k) => Some(decimal(k as nat)),
            None => None,
        },
    }
}

/// The normalised entries of one group, in order, leaving out each entry
/// without a short url.
pub open spec fn tencent_kept(news: Seq<TencentNews>) -> Seq<TrendingView>
    decreases news.len(),
{
    if news.len() == 0 {
        Seq::empty()
    } else if news.last().url is Some {
        tencent_kept(news.drop_last()).push(tencent_item(news.last()))
    } else {
        tencent_kept(news.drop_last())
    }
}

/// The normalised entries of all groups, group after group.
pub open spec fn tencent_items(lists: Seq<TencentList>) -> Seq<TrendingView>
    decreases lists.len(),
{
    if lists.len() == 0 {
        Seq::empty()
    } else {
        tencent_items(lists.drop_last()) + tencent_kept(lists.last().news@)
    }
}

impl TencentNews {
    /// Normalises an entry that has a short url.
    pub fn to_trending(&self) -> (r: TrendingRes)
        requires
            self.url is Some,
        ensures
            r@ == tencent_item(*self),
    {
        let url = match &self.url {
            Some(u) => u.clone(),
            None => String::new(),
        };
        let trend = match self.ranking {
            Some(k) => Some(decimal_string(k)),
            None => None,
        };
        TrendingRes { title: self.title.clone(), url, trend }
    }
}

impl TencentRes {
    /// Normalises the listing: all groups flattened in order, with the entries
    /// that have no short url dropped.
    pub fn into_trendings(self) -> (r: TrendingsRes)
        ensures
            r.platform is Tencent,
            r.items() == tencent_items(self.list@),
    {
        let lists = &self.list;
        let mut out: Vec<TrendingRes> = Vec::new();
        let n = lists.len();
        for i in 0..n
            invariant
                n == lists@.len(),
                out@.map_values(|t: TrendingRes| t@) == tencent_items(lists@.take(i as int)),
        {
            let news = &lists[i].news;
            let m = news.len();
            assert(lists@.take(i + 1).drop_last() =~= lists@.take(i as int));
            assert(news@.take(0) =~= Seq::<TencentNews>::empty());
            for j in 0..m
                invariant
                    m == news@.len(),
                    out@.map_values(|t: TrendingRes| t@) == tencent_items(lists@.take(i as int))
                        + tencent_kept(news@.take(j as int)),
            {
                assert(news@.take(j + 1).drop_last() =~= news@.take(j as int));
                let ghost before = out@;
                if news[j].url.is_some() {
                    out.push(news[j].to_trending());
                    assert(out@.map_values(|t: TrendingRes| t@) =~= before.map_values(
                        |t: TrendingRes| t@,
                    ).push(tencent_item(news@[j as int])));
                }
            }
            assert(news@.take(m as int) =~= news@);
        }
        assert(lists@.take(n as int) =~= lists@);
        TrendingsRes { platform: PlatformType::Tencent, trendings: out }
    }
}

} // verus!
