use vstd::prelude::*;

use crate::common::{non_empty_text, trending_entry, TrendingRes, TrendingView, TrendingsRes};
use crate::platform::PlatformType;

verus! {

/// The hot-list endpoint of Zhihu.
pub const TRENDING_ENDPOINT: &'static str = "https://api.zhihu.com/topstory/hot-lists/total";

/// Zhihu's hot-list response: a list of entries, each wrapping a target.
#[derive(Debug, Clone)]
pub struct ZhihuRes {
    pub data: Vec<ZhihuData>,
}

#[derive(Debug, Clone)]
pub struct ZhihuData {
    pub target: ZhihuTarget,
}

#[derive(Debug, Clone)]
pub struct ZhihuTarget {
    pub title: String,
    pub url: String,
    pub detail_text: Option<String>,
}

/// The normalised form of one Zhihu entry: its target's title and url, and the
/// detail text as heat signal when it is not empty.
pub open spec fn zhihu_item(d: ZhihuData) -> TrendingView {
    TrendingView {
        title: d.target.title@,
        url: d.target.url@,
        trend: non_empty_text(d.target.detail_text),
    }
}

impl ZhihuRes {
    /// Normalises the listing, keeping the upstream order.
    pub fn into_trendings(self) -> (r: TrendingsRes)
        ensures
            r.platform is Zhihu,
            r.items() == self.data@.map_values(|d: ZhihuData| zhihu_item(d)),
    {
        let mut out: Vec<TrendingRes> = Vec::new();
        let n = self.data.len();
        for i in 0..n
            invariant
                n == self.data@.len(),
                out@.len() == i,
                forall|k: int| 0 <= k < i ==> (#[trigger] out@[k])@ == zhihu_item(self.data@[k]),
        {
            let t = &self.data[i].target;
            let e = trending_entry(t.title.clone(), t.url.clone(), t.detail_text.clone());
            out.push(e);
        }
        let r = TrendingsRes { platform: PlatformType::Zhihu, trendings: out };
        assert(r.items() =~= self.data@.map_values(|d: ZhihuData| zhihu_item(d)));
        r
    }
}

} // verus!
