use vstd::prelude::*;

verus! {

/// The countries whose headlines can be shown.
#[derive(Clone, Copy, Debug, PartialEq, Eq, Structural)]
pub enum Country {
    US,
    FR,
}

impl Country {
    /// The country that the country button switches to.
    pub open spec fn spec_toggled(self) -> Country {
        match self {
            Country::US => Country::FR,
            Country::FR => Country::US,
        }
    }

    pub fn toggled(self) -> (r: Country)
        ensures
            r == self.spec_toggled(),
            r != self,
    {
        match self {
            Country::US => Country::FR,
            Country::FR => Country::US,
        }
    }
}

/// The preferences that are kept between runs.
#[derive(Clone, Debug)]
pub struct HeadlinesConfig {
    pub dark_mode: bool,
    pub api_key: String,
    pub country: Country,
}

impl HeadlinesConfig {
    /// The preferences of a first run: dark theme, no key, French headlines.
    pub open spec fn is_initial(self) -> bool {
        &&& self.dark_mode
        &&& self.api_key@ == Seq::<char>::empty()
        &&& self.country == Country::FR
    }

    /// Whether an API key has been entered.
    pub open spec fn has_api_key(self) -> bool {
        self.api_key@.len() > 0
    }
}

impl Default for HeadlinesConfig {
    fn default() -> (r: HeadlinesConfig)
        ensures
            r.is_initial(),
    {
        HeadlinesConfig { dark_mode: true, api_key: String::new(), country: Country::FR }
    }
}

} // verus!
