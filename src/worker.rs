use vstd::prelude::*;
use crate::config::Country;

verus! {

/// What the window tells the background worker.
#[derive(Clone, Debug)]
pub enum Msg {
    /// A key was entered in the configuration window.
    APIKeySet(String),
    /// The list should be fetched again, for this country.
    Refresh(Country),
}

/// One call to the news service that the worker is to make.
#[derive(Clone, Debug)]
pub struct FetchRequest {
    pub api_key: String,
    pub country: Country,
}

impl FetchRequest {
    pub open spec fn is(self, api_key: Seq<char>, country: Country) -> bool {
        self.api_key@ == api_key && self.country == country
    }
}

/// The background worker's fixed state: the key and the country that were
/// stored when the window started.
#[derive(Clone, Debug)]
pub struct Worker {
    pub api_key: String,
    pub country: Country,
}

impl Worker {
    pub fn new(api_key: String, country: Country) -> (w: Worker)
        ensures
            w.api_key@ == api_key@,
            w.country == country,
    {
        Worker { api_key, country }
    }

    /// The fetch made as soon as the worker starts: only when a key was stored.
    pub fn startup(&self) -> (r: Option<FetchRequest>)
        ensures
            r.is_some() <==> self.api_key@.len() > 0,
            r matches Some(q) ==> q.is(self.api_key@, self.country),
    {
        if self.api_key.as_str().is_empty() {
            None
        } else {
            Some(FetchRequest { api_key: self.api_key.clone(), country: self.country })
        }
    }

    /// The fetch that answers one message. A new key is used with the stored
    /// country; a refresh uses the stored key with the country it names.
    pub fn handle(&self, msg: Msg) -> (r: FetchRequest)
        ensures
            msg matches Msg::APIKeySet(k) ==> r.is(k@, self.country),
            msg matches Msg::Refresh(c) ==> r.is(self.api_key@, c),
    {
        match msg {
            Msg::APIKeySet(api_key) => FetchRequest { api_key, country: self.country },
            Msg::Refresh(country) => FetchRequest { api_key: self.api_key.clone(), country },
        }
    }
}

} // verus!
