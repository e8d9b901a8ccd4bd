//! State and decisions of a news-headlines reader: the stored preferences,
//! the actions of the menu bar and the configuration window, the background
//! worker's choice of what to fetch, and the cards built from fetched articles.
//! Drawing and networking are left to the program that embeds this library.

pub mod config;
pub mod headlines;
pub mod news;
pub mod theme;
pub mod worker;

pub use config::{Country, HeadlinesConfig};
pub use headlines::{Headlines, HeadlinesView};
pub use news::{generate_news_card_data, Article, NewsCardData};
pub use theme::{link_color, theme_icon, title_color, Rgb};
pub use worker::{FetchRequest, Msg, Worker};
