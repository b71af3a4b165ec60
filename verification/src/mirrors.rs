//! The sources an archive may be served from: two officially replicated
//! mirrors with deterministic URL layouts, and the registry fallback with its
//! two caching strategies.

pub mod aliyun;
pub mod cache_third_site;
pub mod packagist;
pub mod storage_self;
pub mod tencent;
