use vstd::prelude::*;

use crate::common::{non_empty_text, trending_entry, TrendingRes, TrendingView, TrendingsRes};
use crate::platform::PlatformType;

verus! {

/// The hot-board endpoint of Toutiao.
pub const TRENDING_ENDPOINT: &'static str =
    "https://www.toutiao.com/hot-event/hot-board/?origin=toutiao_pc";

/// Toutiao's hot-board response: the ranked entries and, apart, the pinned ones.
#[derive(Debug, Clone)]
pub struct TouTiaoRes {
    pub data: Vec<TouTiaoData>,
    pub fixed_top_data: Vec<TouTiaoData>,
}

#[derive(Debug, Clone)]
pub struct TouTiaoData {
    pub title: String,
    pub url: String,
    pub hot_value: Option<String>,
}

/// The normalised form of one Toutiao entry.
pub open spec fn toutiao_item(d: TouTiaoData) -> TrendingView {
    TrendingView { title: d.title@, url: d.url@, trend: non_empty_text(d.hot_value) }
}

impl TouTiaoData {
    /// Normalises one entry.
    pub fn to_trending(&self) -> (r: TrendingRes)
        ensures
            r@ == toutiao_item(*self),
    {
        trending_entry(self.title.clone(), self.url.clone(), self.hot_value.clone())
    }
}

impl TouTiaoRes {
    /// Normalises the listing: the ranked entries in order, then the pinned
    /// ones in order, appended after them.
    pub fn into_trendings(self) -> (r: TrendingsRes)
        ensures
            r.platform is Toutiao,
            r.items() == self.data@.map_values(|d: TouTiaoData| toutiao_item(d))
                + self.fixed_top_data@.map_values(|d: TouTiaoData| toutiao_item(d)),
    {
        let mut out: Vec<TrendingRes> = Vec::new();
        let n = self.data.len();
        for i in 0..n
            invariant
                n == self.data@.len(),
                out@.len() == i,
                forall|k: int| 0 <= k < i ==> (#[trigger] out@[k])@ == toutiao_item(self.data@[k]),
        {
            out.push(self.data[i].to_trending());
        }
        let m = self.fixed_top_data.len();
        for j in 0..m
            invariant
                n == self.data@.len(),
                m == self.fixed_top_data@.len(),
                out@.len() == n + j,
                forall|k: int| 0 <= k < n ==> (#[trigger] out@[k])@ == toutiao_item(self.data@[k]),
                forall|k: int|
                    n <= k < n + j ==> (#[trigger] out@[k])@ == toutiao_item(
                        self.fixed_top_data@[k - n],
                    ),
        {
            out.push(self.fixed_top_data[j].to_trending());
        }
        let r = TrendingsRes { platform: PlatformType::Toutiao, trendings: out };
        assert(r.items() =~= self.data@.map_values(|d: TouTiaoData| toutiao_item(d))
            + self.fixed_top_data@.map_values(|d: TouTiaoData| toutiao_item(d)));
        r
    }
}

} // verus!
