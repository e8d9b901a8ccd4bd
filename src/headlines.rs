use vstd::prelude::*;
use crate::config::{Country, HeadlinesConfig};
use crate::news::NewsCardData;
use crate::theme::{link_color, theme_icon, title_color, Rgb};
use crate::worker::{Msg, Worker};

verus! {

/// What a `Headlines` window holds, as a value.
pub ghost struct HeadlinesView {
    /// The cards received since the last refresh, in order of arrival.
    pub articles: Seq<NewsCardData>,
    pub config: HeadlinesConfig,
    /// The news list is shown, not the configuration window.
    pub api_key_initialized: bool,
    /// A background worker has been started and listens for messages.
    pub worker_linked: bool,
}

/// The state of the headlines window.
pub struct Headlines {
    articles: Vec<NewsCardData>,
    config: HeadlinesConfig,
    api_key_initialized: bool,
    worker_linked: bool,
}

impl View for Headlines {
    type V = HeadlinesView;

    closed spec fn view(&self) -> HeadlinesView {
        HeadlinesView {
            articles: self.articles@,
            config: self.config,
            api_key_initialized: self.api_key_initialized,
            worker_linked: self.worker_linked,
        }
    }
}

/// `m` tells the worker to fetch again for country `c`.
pub open spec fn is_refresh(m: Msg, c: Country) -> bool {
    m matches Msg::Refresh(k) && k == c
}

/// `m` hands the worker the key `key`.
pub open spec fn is_key_set(m: Msg, key: Seq<char>) -> bool {
    m matches Msg::APIKeySet(k) && k@ == key
}

impl Headlines {
    /// A window with no cards, the first-run preferences, and no worker.
    pub fn new() -> (h: Headlines)
        ensures
            h@.articles.len() == 0,
            h@.config.is_initial(),
            !h@.api_key_initialized,
            !h@.worker_linked,
    {
        Headlines {
            articles: Vec::new(),
            config: HeadlinesConfig::default(),
            api_key_initialized: false,
            worker_linked: false,
        }
    }

    /// Takes the stored preferences; the news list is shown at once when they
    /// hold a key.
    pub fn load_config(&mut self, config: HeadlinesConfig)
        ensures
            final(self)@ == (HeadlinesView {
                config,
                api_key_initialized: config.has_api_key(),
                ..old(self)@
            }),
    {
        self.api_key_initialized = !config.api_key.as_str().is_empty();
        self.config = config;
    }

    /// Links the window to a background worker, which starts with the key
    /// and the country that the window holds now.
    pub fn start_worker(&mut self) -> (w: Worker)
        ensures
            final(self)@ == (HeadlinesView { worker_linked: true, ..old(self)@ }),
            w.api_key@ == old(self)@.config.api_key@,
            w.country == old(self)@.config.country,
    {
        self.worker_linked = true;
        Worker::new(self.config.api_key.clone(), self.config.country)
    }

    /// The refresh button: with a worker, the list is emptied and the worker
    /// is asked to fetch the current country; without one nothing happens.
    pub fn refresh(&mut self) -> (m: Option<Msg>)
        ensures
            old(self)@.worker_linked ==> {
                &&& final(self)@ == (HeadlinesView { articles: Seq::empty(), ..old(self)@ })
                &&& m matches Some(msg) && is_refresh(msg, old(self)@.config.country)
            },
            !old(self)@.worker_linked ==> final(self)@ == old(self)@ && m is None,
    {
        if self.worker_linked {
            self.articles.clear();
            Some(Msg::Refresh(self.config.country))
        } else {
            None
        }
    }

    /// The theme button: switches between the dark and the light theme.
    pub fn toggle_theme(&mut self)
        ensures
            final(self)@ == (HeadlinesView {
                config: HeadlinesConfig {
                    dark_mode: !old(self)@.config.dark_mode,
                    ..old(self)@.config
                },
                ..old(self)@
            }),
    {
        self.config.dark_mode = !self.config.dark_mode;
    }

    /// The country button: switches the country; with a worker, the list is
    /// also emptied and the worker asked to fetch the new country.
    pub fn toggle_country(&mut self) -> (m: Option<Msg>)
        ensures
            ({
                let config = HeadlinesConfig {
                    country: old(self)@.config.country.spec_toggled(),
                    ..old(self)@.config
                };
                if old(self)@.worker_linked {
                    &&& final(self)@ == (HeadlinesView {
                        articles: Seq::empty(),
                        config,
                        ..old(self)@
                    })
                    &&& m matches Some(msg) && is_refresh(msg, config.country)
                } else {
                    &&& final(self)@ == (HeadlinesView { config, ..old(self)@ })
                    &&& m is None
                }
            }),
    {
        let country = self.config.country.toggled();
        self.config.country = country;
        if self.worker_linked {
            self.articles.clear();
            Some(Msg::Refresh(country))
        } else {
            None
        }
    }

    /// The settings button: switches between the news list and the
    /// configuration window.
    pub fn toggle_settings(&mut self)
        ensures
            final(self)@ == (HeadlinesView {
                api_key_initialized: !old(self)@.api_key_initialized,
                ..old(self)@
            }),
    {
        self.api_key_initialized = !self.api_key_initialized;
    }

    /// The text of the key field, as typed so far.
    pub fn set_api_key(&mut self, api_key: String)
        ensures
            final(self)@ == (HeadlinesView {
                config: HeadlinesConfig { api_key, ..old(self)@.config },
                ..old(self)@
            }),
    {
        self.config.api_key = api_key;
    }

    /// Enter in the key field: the news list is shown, and a worker is handed
    /// the key.
    pub fn submit_api_key(&mut self) -> (m: Option<Msg>)
        ensures
            final(self)@ == (HeadlinesView { api_key_initialized: true, ..old(self)@ }),
            old(self)@.worker_linked ==> (m matches Some(msg) && is_key_set(
                msg,
                old(self)@.config.api_key@,
            )),
            !old(self)@.worker_linked ==> m is None,
    {
        self.api_key_initialized = true;
        if self.worker_linked {
            Some(Msg::APIKeySet(self.config.api_key.clone()))
        } else {
            None
        }
    }

    /// A card that the worker sent: it goes to the end of the list.
    pub fn receive_card(&mut self, card: NewsCardData)
        ensures
            final(self)@ == (HeadlinesView { articles: old(self)@.articles.push(card), ..old(self)@ }),
    {
        self.articles.push(card);
    }

    pub fn articles(&self) -> (r: &Vec<NewsCardData>)
        ensures
            r@ == self@.articles,
    {
        &self.articles
    }

    pub fn config(&self) -> (r: &HeadlinesConfig)
        ensures
            *r == self@.config,
    {
        &self.config
    }

    /// Whether the news list is shown; otherwise the configuration window is.
    pub fn api_key_initialized(&self) -> (r: bool)
        ensures
            r == self@.api_key_initialized,
    {
        self.api_key_initialized
    }

    /// Whether a worker has been started.
    pub fn worker_linked(&self) -> (r: bool)
        ensures
            r == self@.worker_linked,
    {
        self.worker_linked
    }

    /// Whether the list waits for its first card.
    pub fn is_loading(&self) -> (r: bool)
        ensures
            r == (self@.articles.len() == 0),
    {
        self.articles.len() == 0
    }

    pub fn title_color(&self) -> (c: Rgb)
        ensures
            c == (if self@.config.dark_mode {
                crate::theme::rgb(255, 255, 255)
            } else {
                crate::theme::rgb(0, 0, 0)
            }),
    {
        title_color(self.config.dark_mode)
    }

    pub fn link_color(&self) -> (c: Rgb)
        ensures
            c == (if self@.config.dark_mode {
                crate::theme::rgb(0, 255, 255)
            } else {
                crate::theme::rgb(255, 0, 0)
            }),
    {
        link_color(self.config.dark_mode)
    }

    pub fn theme_icon(&self) -> (s: &'static str)
        ensures
            s@ == (if self@.config.dark_mode { "\u{1F31E}"@ } else { "\u{1F319}"@ }),
    {
        theme_icon(self.config.dark_mode)
    }
}

} // verus!
