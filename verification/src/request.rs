//! The HTTP request that fetches recent news.

use vstd::prelude::*;
use crate::text::{decimal, decimal_text, digits_value, law_decimal_numeral};

verus! {

/// The host of the news service.
pub const WS_DOMAIN: &'static str = "news.treeofalpha.com";

/// The path of the news service's WebSocket endpoint.
pub const WS_URL: &'static str = "/ws";

/// A request for recent news: where to send it, and the value of its
/// `Authorization` header when there is one.
#[derive(Debug, Clone)]
pub struct NewsRequest {
    pub url: String,
    pub authorization: Option<String>,
}

/// The URL that asks for the latest `limit` news items.
pub open spec fn news_url(limit: nat) -> Seq<char> {
    "https://"@ + WS_DOMAIN@ + "/api/news?limit="@ + decimal(limit)
}

/// The `Authorization` header value that carries an API key.
pub open spec fn bearer(key: Seq<char>) -> Seq<char> {
    "Bearer "@ + key
}

/// The news URL is "https://news.treeofalpha.com/api/news?limit=" followed
/// by the decimal numeral of the limit: digits only, no leading zero, and
/// reading back as the limit. A key is sent as "Bearer " and the key.
pub proof fn law_news_url(limit: nat, key: Seq<char>)
    ensures
        news_url(limit).subrange(0, 44) == "https://news.treeofalpha.com/api/news?limit="@,
        digits_value(news_url(limit).skip(44)) == limit,
        news_url(limit).len() > 44,
        forall|i: int| 44 <= i < news_url(limit).len() ==> '0' <= #[trigger] news_url(limit)[i] <= '9',
        limit > 0 ==> news_url(limit)[44] != '0',
        bearer(key).subrange(0, 7) == "Bearer "@,
        bearer(key).skip(7) == key,
{
    reveal_strlit("https://");
    reveal_strlit("news.treeofalpha.com");
    reveal_strlit("/api/news?limit=");
    reveal_strlit("https://news.treeofalpha.com/api/news?limit=");
    reveal_strlit("Bearer ");
    law_decimal_numeral(limit);
    let prefix = "https://"@ + WS_DOMAIN@ + "/api/news?limit="@;
    assert(prefix =~= "https://news.treeofalpha.com/api/news?limit="@);
    let url = news_url(limit);
    assert(url.subrange(0, 44) =~= prefix);
    assert(url.skip(44) =~= decimal(limit));
    assert forall|i: int| 44 <= i < url.len() implies '0' <= #[trigger] url[i] <= '9' by {
        assert(url[i] == decimal(limit)[i - 44]);
    }
    assert(url[44] == decimal(limit)[0]);
    assert(bearer(key).subrange(0, 7) =~= "Bearer "@);
    assert(bearer(key).skip(7) =~= key);
}

/// The request that fetches the latest `limit` news items, authorized by
/// `api_key` when one is given.
pub fn news_request(limit: usize, api_key: &Option<String>) -> (res: NewsRequest)
    ensures
        res.url@ == news_url(limit as nat),
        match api_key {
            Some(key) => res.authorization matches Some(value) && value@ == bearer(key@),
            None => res.authorization is None,
        },
{
    let mut url = "https://".to_string();
    url.append(WS_DOMAIN);
    url.append("/api/news?limit=");
    let digits = decimal_text(limit);
    url.append(digits.as_str());
    let authorization = match api_key {
        Some(key) => {
            let mut value = "Bearer ".to_string();
            value.append(key.as_str());
            Some(value)
        },
        None => None,
    };
    NewsRequest { url, authorization }
}

} // verus!
