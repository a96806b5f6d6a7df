//! A verified model of a crypto news feed: the news items that a news
//! service delivers, the helpers that the dashboard uses to show them, the
//! bounded panel that keeps the newest items, and the decisions of the
//! streaming client that receives them.

mod text;
pub mod clock;
pub mod news;
pub mod prices;
pub mod panel;
pub mod request;
pub mod stream;

pub use news::{NewsItem, NewsSuggestion, NewsSymbol, TwitterInfo};
