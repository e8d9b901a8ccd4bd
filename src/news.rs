use vstd::prelude::*;

verus! {

/// What the reader takes from one fetched article.
#[derive(Clone, Debug)]
pub struct Article {
    pub title: String,
    pub description: Option<String>,
    pub url: String,
}

/// One card of the news list: a title, a description and a link.
#[derive(Clone, Debug)]
pub struct NewsCardData {
    pub title: String,
    pub desc: String,
    pub url: String,
}

/// The description shown for an article that has none.
pub open spec fn missing_desc() -> Seq<char> {
    seq!['.', '.', '.']
}

/// The marker put before a card's title.
pub open spec fn heading_marker() -> Seq<char> {
    seq!['\u{25B6}', ' ']
}

/// The description that a card shows for `a`.
pub open spec fn desc_of(a: Article) -> Seq<char> {
    match a.description {
        Some(d) => d@,
        None => missing_desc(),
    }
}

impl NewsCardData {
    /// This card shows article `a`.
    pub open spec fn shows(self, a: Article) -> bool {
        &&& self.title@ == a.title@
        &&& self.desc@ == desc_of(a)
        &&& self.url@ == a.url@
    }

    /// The card of one article; an article without a description gets "...".
    pub fn from_article(a: &Article) -> (r: NewsCardData)
        ensures
            r.shows(*a),
    {
        let desc = match &a.description {
            Some(d) => d.clone(),
            None => {
                proof {
                    reveal_strlit("...");
                }
                let d = String::from_str("...");
                assert(d@ =~= missing_desc());
                d
            },
        };
        NewsCardData { title: a.title.clone(), desc, url: a.url.clone() }
    }

    /// The title line of the card, behind its marker.
    pub fn heading(&self) -> (r: String)
        ensures
            r@ == heading_marker() + self.title@,
    {
        proof {
            reveal_strlit("\u{25B6} ");
        }
        let r = String::from_str("\u{25B6} ").concat(self.title.as_str());
        assert(r@ =~= heading_marker() + self.title@);
        r
    }
}

/// The cards of a fetched list of articles, one per article, in order.
pub fn generate_news_card_data(articles: &Vec<Article>) -> (cards: Vec<NewsCardData>)
    ensures
        cards.len() == articles.len(),
        forall|i: int| 0 <= i < articles.len() ==> #[trigger] cards[i].shows(articles[i]),
{
    let mut cards: Vec<NewsCardData> = Vec::new();
    let mut i: usize = 0;
    while i < articles.len()
        invariant
            i <= articles.len(),
            cards.len() == i,
            forall|j: int| 0 <= j < i ==> #[trigger] cards[j].shows(articles[j]),
        decreases articles.len() - i,
    {
        let card = NewsCardData::from_article(&articles[i]);
        cards.push(card);
        i = i + 1;
    }
    cards
}

} // verus!
