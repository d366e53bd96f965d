use vstd::prelude::*;

use crate::common::{non_empty_text, trending_entry, TrendingRes, TrendingView, TrendingsRes};
use crate::platform::PlatformType;

verus! {

/// The hot-list endpoint of Weibo's news app.
pub const TRENDING_ENDPOINT: &'static str =
    "https://newsapp.sina.cn/api/hotlist?newsId=HB-1-snhs/top_news_list-all";

/// Weibo's hot-list response.
#[derive(Debug, Clone)]
pub struct WeiboRes {
    pub status: i32,
    pub data: WeiboData,
}

#[derive(Debug, Clone)]
pub struct WeiboData {
    pub hot_list: Vec<WeiboHot>,
}

#[derive(Debug, Clone)]
pub struct WeiboHot {
    pub info: WeiboInfo,
}

#[derive(Debug, Clone)]
pub struct WeiboInfo {
    pub title: String,
    pub hot_value: Option<String>,
}

/// The search page of a topic: Weibo gives no url, so it is the fixed search
/// template with the title put in verbatim, unescaped.
pub open spec fn weibo_url(title: Seq<char>) -> Seq<char> {
    "https://m.weibo.cn/search?containerid=100103type%3D1%26q%3D%23"@ + title + "%23"@
}

/// The normalised form of one Weibo entry.
pub open spec fn weibo_item(info: WeiboInfo) -> TrendingView {
    TrendingView {
        title: info.title@,
        url: weibo_url(info.title@),
        trend: non_empty_text(info.hot_value),
    }
}

/// The search url of a topic title.
pub fn search_url(title: &str) -> (r: String)
    ensures
        r@ == weibo_url(title@),
{
    let mut url = String::from_str("https://m.weibo.cn/search?containerid=100103type%3D1%26q%3D%23");
    url.append(title);
    url.append("%23");
    url
}

impl WeiboInfo {
    /// Normalises one entry.
    pub fn to_trending(&self) -> (r: TrendingRes)
        ensures
            r@ == weibo_item(*self),
    {
        let url = search_url(self.title.as_str());
        trending_entry(self.title.clone(), url, self.hot_value.clone())
    }
}

impl WeiboRes {
    /// Normalises the listing, keeping the upstream order.
    pub fn into_trendings(self) -> (r: TrendingsRes)
        ensures
            r.platform is Weibo,
            r.items() == self.data.hot_list@.map_values(|h: WeiboHot| weibo_item(h.info)),
    {
        let list = &self.data.hot_list;
        let mut out: Vec<TrendingRes> = Vec::new();
        let n = list.len();
        for i in 0..n
            invariant
                n == list@.len(),
                out@.len() == i,
                forall|k: int| 0 <= k < i ==> (#[trigger] out@[k])@ == weibo_item(list@[k].info),
        {
            out.push(list[i].info.to_trending());
        }
        let r = TrendingsRes { platform: PlatformType::Weibo, trendings: out };
        assert(r.items() =~= self.data.hot_list@.map_values(|h: WeiboHot| weibo_item(h.info)));
        r
    }
}

} // verus!
