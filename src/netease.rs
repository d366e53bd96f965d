use vstd::prelude::*;

use crate::common::{TrendingRes, TrendingView, TrendingsRes};
use crate::platform::PlatformType;

verus! {

/// The hot-news endpoint of Netease.
pub const TRENDING_ENDPOINT: &'static str = "https://m.163.com/fe/api/hot/news/flow";

/// Netease's hot-news response.
#[derive(Debug, Clone)]
pub struct NeteaseRes {
    pub data: NeteaseData,
}

#[derive(Debug, Clone)]
pub struct NeteaseData {
    pub list: Vec<NeteaseNews>,
}

#[derive(Debug, Clone)]
pub struct NeteaseNews {
    pub title: String,
    pub url: String,
}

/// The normalised form of one Netease entry: the source has no heat signal.
pub open spec fn netease_item(n: NeteaseNews) -> TrendingView {
    TrendingView { title: n.title@, url: n.url@, trend: None }
}

impl NeteaseRes {
    /// Normalises the listing, keeping the upstream order.
    pub fn into_trendings(self) -> (r: TrendingsRes)
        ensures
            r.platform is Netease,
            r.items() == self.data.list@.map_values(|n: NeteaseNews| netease_item(n)),
    {
        let list = &self.data.list;
        let mut out: Vec<TrendingRes> = Vec::new();
        let n = list.len();
        for i in 0..n
            invariant
                n == list@.len(),
                out@.len() == i,
                forall|k: int| 0 <= k < i ==> (#[trigger] out@[k])@ == netease_item(list@[k]),
        {
            let e = TrendingRes { title: list[i].title.clone(), url: list[i].url.clone(), trend: None };
            out.push(e);
        }
        let r = TrendingsRes { platform: PlatformType::Netease, trendings: out };
        assert(r.items() =~= self.data.list@.map_values(|n: NeteaseNews| netease_item(n)));
        r
    }
}

} // verus!
