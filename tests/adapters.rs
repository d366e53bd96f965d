use trending::common::{not_empty_str, TrendingRes, TrendingsRes};
use trending::netease::{NeteaseData, NeteaseNews, NeteaseRes};
use trending::platform::PlatformType;
use trending::tencent::{TencentList, TencentNews, TencentRes};
use trending::toutiao::{TouTiaoData, TouTiaoRes};
use trending::weibo::{search_url, WeiboData, WeiboHot, WeiboInfo, WeiboRes};
use trending::zhihu::{ZhihuData, ZhihuRes, ZhihuTarget};

fn s(x: &str) -> String {
    x.to_string()
}

fn item(title: &str, url: &str, trend: Option<&str>) -> (String, String, Option<String>) {
    (s(title), s(url), trend.map(s))
}

fn items(res: &TrendingsRes) -> Vec<(String, String, Option<String>)> {
    res.trendings
        .iter()
        .map(|t: &TrendingRes| (t.title.clone(), t.url.clone(), t.trend.clone()))
        .collect()
}

fn zhihu(title: &str, url: &str, detail: Option<&str>) -> ZhihuData {
    ZhihuData { target: ZhihuTarget { title: s(title), url: s(url), detail_text: detail.map(s) } }
}

fn toutiao(title: &str, url: &str, hot: Option<&str>) -> TouTiaoData {
    TouTiaoData { title: s(title), url: s(url), hot_value: hot.map(s) }
}

fn tencent(id: &str, title: &str, url: Option<&str>, ranking: Option<u32>) -> TencentNews {
    TencentNews { id: s(id), title: s(title), url: url.map(s), ranking }
}

#[test]
fn not_empty_str_collapses_empty() {
    assert_eq!(not_empty_str(None), None);
    assert_eq!(not_empty_str(Some(s(""))), None);
    assert_eq!(not_empty_str(Some(s("hot"))), Some(s("hot")));
}

#[test]
fn zhihu_fixture_normalises() {
    let raw = ZhihuRes {
        data: vec![
            zhihu("Q1", "https://zhihu.com/q/1", Some("1200 万热度")),
            zhihu("Q2", "https://zhihu.com/q/2", Some("")),
            zhihu("Q3", "https://zhihu.com/q/3", None),
        ],
    };
    let res = raw.into_trendings();
    assert!(matches!(res.platform, PlatformType::Zhihu));
    assert_eq!(
        items(&res),
        vec![
            item("Q1", "https://zhihu.com/q/1", Some("1200 万热度")),
            item("Q2", "https://zhihu.com/q/2", None),
            item("Q3", "https://zhihu.com/q/3", None),
        ]
    );
}

#[test]
fn zhihu_single_record_with_empty_detail() {
    let raw = ZhihuRes { data: vec![zhihu("T", "U", Some(""))] };
    let res = raw.into_trendings();
    assert_eq!(items(&res), vec![item("T", "U", None)]);
}

#[test]
fn zhihu_empty_list() {
    let res = ZhihuRes { data: vec![] }.into_trendings();
    assert!(res.trendings.is_empty());
}

#[test]
fn weibo_url_is_template_with_raw_title() {
    assert_eq!(
        search_url("ABC"),
        "https://m.weibo.cn/search?containerid=100103type%3D1%26q%3D%23ABC%23"
    );
    assert_eq!(
        search_url("a b&c"),
        "https://m.weibo.cn/search?containerid=100103type%3D1%26q%3D%23a b&c%23"
    );
}

#[test]
fn weibo_fixture_normalises() {
    let raw = WeiboRes {
        status: 0,
        data: WeiboData {
            hot_list: vec![
                WeiboHot { info: WeiboInfo { title: s("ABC"), hot_value: Some(s("98765")) } },
                WeiboHot { info: WeiboInfo { title: s("DEF"), hot_value: Some(s("")) } },
                WeiboHot { info: WeiboInfo { title: s("GHI"), hot_value: None } },
            ],
        },
    };
    let res = raw.into_trendings();
    assert!(matches!(res.platform, PlatformType::Weibo));
    assert_eq!(
        items(&res),
        vec![
            item(
                "ABC",
                "https://m.weibo.cn/search?containerid=100103type%3D1%26q%3D%23ABC%23",
                Some("98765")
            ),
            item("DEF", "https://m.weibo.cn/search?containerid=100103type%3D1%26q%3D%23DEF%23", None),
            item("GHI", "https://m.weibo.cn/search?containerid=100103type%3D1%26q%3D%23GHI%23", None),
        ]
    );
}

#[test]
fn toutiao_pinned_entries_come_last() {
    let raw = TouTiaoRes {
        data: vec![toutiao("A", "ua", Some("100")), toutiao("B", "ub", Some(""))],
        fixed_top_data: vec![toutiao("P", "up", None)],
    };
    let res = raw.into_trendings();
    assert!(matches!(res.platform, PlatformType::Toutiao));
    assert_eq!(
        items(&res),
        vec![item("A", "ua", Some("100")), item("B", "ub", None), item("P", "up", None)]
    );
}

#[test]
fn toutiao_only_pinned() {
    let raw = TouTiaoRes { data: vec![], fixed_top_data: vec![toutiao("P", "up", Some("9"))] };
    assert_eq!(items(&raw.into_trendings()), vec![item("P", "up", Some("9"))]);
}

#[test]
fn tencent_drops_entries_without_short_url() {
    let raw = TencentRes {
        list: vec![
            TencentList {
                news: vec![
                    tencent("1", "kept", Some("https://qq.com/1"), Some(7)),
                    tencent("2", "dropped", None, Some(8)),
                ],
            },
            TencentList {
                news: vec![
                    tencent("3", "no rank", Some("https://qq.com/3"), None),
                    tencent("4", "big", Some("https://qq.com/4"), Some(4294967295)),
                ],
            },
        ],
    };
    let res = raw.into_trendings();
    assert!(matches!(res.platform, PlatformType::Tencent));
    assert_eq!(
        items(&res),
        vec![
            item("kept", "https://qq.com/1", Some("7")),
            item("no rank", "https://qq.com/3", None),
            item("big", "https://qq.com/4", Some("4294967295")),
        ]
    );
}

#[test]
fn tencent_ranking_zero_and_ten() {
    let raw = TencentRes {
        list: vec![TencentList {
            news: vec![tencent("1", "a", Some("u"), Some(0)), tencent("2", "b", Some("v"), Some(10))],
        }],
    };
    assert_eq!(
        items(&raw.into_trendings()),
        vec![item("a", "u", Some("0")), item("b", "v", Some("10"))]
    );
}

#[test]
fn tencent_empty_groups() {
    let raw = TencentRes { list: vec![TencentList { news: vec![] }] };
    assert!(raw.into_trendings().trendings.is_empty());
}

#[test]
fn netease_has_no_trend() {
    let raw = NeteaseRes {
        data: NeteaseData {
            list: vec![
                NeteaseNews { title: s("N1"), url: s("https://163.com/1") },
                NeteaseNews { title: s("N2"), url: s("https://163.com/2") },
            ],
        },
    };
    let res = raw.into_trendings();
    assert!(matches!(res.platform, PlatformType::Netease));
    assert_eq!(
        items(&res),
        vec![item("N1", "https://163.com/1", None), item("N2", "https://163.com/2", None)]
    );
}
