//! Normalisation of trending and search listings from several content
//! platforms into one uniform schema, with the per-platform conversion rules
//! stated and proved.

pub mod common;
pub mod errors;
pub mod netease;
pub mod options;
pub mod platform;
pub mod tencent;
pub mod toutiao;
pub mod weibo;
pub mod zhihu;
