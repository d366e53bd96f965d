use vstd::prelude::*;

verus! {

/// The platform a listing came from: one variant per known source, and an open
/// variant that keeps an unrecognised tag verbatim.
#[derive(Debug, Clone)]
pub enum PlatformType {
    Zhihu,
    Weibo,
    Toutiao,
    Tencent,
    Tieba,
    Netease,
    Hupu,
    Other(String),
}

/// Whether `s` is the tag of one of the known platforms.
pub open spec fn is_known_tag(s: Seq<char>) -> bool {
    ||| s == "zhihu"@
    ||| s == "weibo"@
    ||| s == "toutiao"@
    ||| s == "tencent"@
    ||| s == "tieba"@
    ||| s == "netease"@
    ||| s == "hupu"@
}

impl PlatformType {
    /// The canonical tag of the platform.
    pub open spec fn tag(&self) -> Seq<char> {
        match self {
            PlatformType::Zhihu => "zhihu"@,
            PlatformType::Weibo => "weibo"@,
            PlatformType::Toutiao => "toutiao"@,
            PlatformType::Tencent => "tencent"@,
            PlatformType::Tieba => "tieba"@,
            PlatformType::Netease => "netease"@,
            PlatformType::Hupu => "hupu"@,
            PlatformType::Other(s) => s@,
        }
    }

    /// The open variant never holds the tag of a known platform.
    pub open spec fn well_formed(&self) -> bool {
        self matches PlatformType::Other(s) ==> !is_known_tag(s@)
    }

    /// `p` is what reading the tag `s` yields: a known platform for a known
    /// tag, the open variant otherwise, and in either case a value whose tag is
    /// `s` itself.
    pub open spec fn read_from(p: PlatformType, s: Seq<char>) -> bool {
        &&& p.tag() == s
        &&& (p is Other <==> !is_known_tag(s))
    }

    pub fn to_str(&self) -> (r: &str)
        ensures
            r@ == self.tag(),
    {
        proof {
            reveal_strlit("zhihu");
            reveal_strlit("weibo");
            reveal_strlit("toutiao");
            reveal_strlit("tencent");
            reveal_strlit("tieba");
            reveal_strlit("netease");
            reveal_strlit("hupu");
        }
        match self {
            PlatformType::Zhihu => "zhihu",
            PlatformType::Weibo => "weibo",
            PlatformType::Toutiao => "toutiao",
            PlatformType::Tencent => "tencent",
            PlatformType::Tieba => "tieba",
            PlatformType::Netease => "netease",
            PlatformType::Hupu => "hupu",
            PlatformType::Other(other) => other.as_str(),
        }
    }

    /// Reads a platform tag: a known tag gives its platform, any other string
    /// is kept verbatim in the open variant.
    pub fn from_tag(tag: &str) -> (r: PlatformType)
        ensures
            PlatformType::read_from(r, tag@),
            r.well_formed(),
            tag@ == "zhihu"@ ==> r is Zhihu,
            tag@ == "weibo"@ ==> r is Weibo,
            tag@ == "toutiao"@ ==> r is Toutiao,
            tag@ == "tencent"@ ==> r is Tencent,
            tag@ == "tieba"@ ==> r is Tieba,
            tag@ == "netease"@ ==> r is Netease,
            tag@ == "hupu"@ ==> r is Hupu,
    {
        proof {
            lemma_known_tags_distinct();
        }
        let t = String::from_str(tag);
        if t == String::from_str("zhihu") {
            PlatformType::Zhihu
        } else if t == String::from_str("weibo") {
            PlatformType::Weibo
        } else if t == String::from_str("toutiao") {
            PlatformType::Toutiao
        } else if t == String::from_str("tencent") {
            PlatformType::Tencent
        } else if t == String::from_str("tieba") {
            PlatformType::Tieba
        } else if t == String::from_str("netease") {
            PlatformType::Netease
        } else if t == String::from_str("hupu") {
            PlatformType::Hupu
        } else {
            PlatformType::Other(t)
        }
    }
}

/// The tags of the known platforms are pairwise distinct, as their lengths
/// and first two characters show.
proof fn lemma_known_tags_distinct()
    ensures
        "zhihu"@.len() == 5 && "zhihu"@[0] == 'z',
        "weibo"@.len() == 5 && "weibo"@[0] == 'w',
        "toutiao"@.len() == 7 && "toutiao"@[0] == 't' && "toutiao"@[1] == 'o',
        "tencent"@.len() == 7 && "tencent"@[0] == 't' && "tencent"@[1] == 'e',
        "tieba"@.len() == 5 && "tieba"@[0] == 't',
        "netease"@.len() == 7 && "netease"@[0] == 'n',
        "hupu"@.len() == 4 && "hupu"@[0] == 'h',
{
    reveal_strlit("zhihu");
    reveal_strlit("weibo");
    reveal_strlit("toutiao");
    reveal_strlit("tencent");
    reveal_strlit("tieba");
    reveal_strlit("netease");
    reveal_strlit("hupu");
}

/// Rendering a well-formed platform to its tag and reading the tag back gives
/// the same platform: the same known variant, or the open variant holding the
/// same text.
pub proof fn lemma_platform_round_trip(p: PlatformType, q: PlatformType)
    requires
        p.well_formed(),
        PlatformType::read_from(q, p.tag()),
    ensures
        p !is Other ==> q == p,
        p is Other ==> q is Other && q->Other_0@ == p->Other_0@,
{
    lemma_known_tags_distinct();
}

/// Reading any tag and rendering the result gives back exactly that tag.
pub proof fn lemma_tag_round_trip(s: Seq<char>, q: PlatformType)
    requires
        PlatformType::read_from(q, s),
    ensures
        q.tag() == s,
        q.well_formed(),
{
}

} // verus!
