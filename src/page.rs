//! The detail page parser, and the structural queries it shares with the
//! index page walker.

use vstd::prelude::*;
use crate::builder::{all_known, build_requirements, first_unknown, paired, stat_of};
use crate::record::{PageError, Scalings, Weapon, WeaponModel};
use crate::text::{concat_all, join_parts, normalize, normalized};
use crate::tokens::{name_tokens, name_tokens_of, value_tokens, value_tokens_of};

verus! {

/// Where the pages live and where on them the data stands.
pub struct Site {
    /// The page that lists every item.
    pub index_url: String,
    /// The prefix of every detail page address.
    pub base_url: String,
    /// Selects the anchors of the index page that carry item names.
    pub item_selector: String,
    /// Selects the category anchor of a detail page.
    pub category_selector: String,
    /// Selects the attribute-text cells of a detail page: scaling grades
    /// first, requirements second.
    pub attributes_selector: String,
}

impl Site {
    /// The weapon comparison pages of the Elden Ring wiki.
    pub fn elden_ring_wiki() -> (r: Site)
        ensures
            r.index_url@ == "https://eldenring.wiki.fextralife.com/Weapons+Comparison+Tables"@,
            r.base_url@ == "https://eldenring.wiki.fextralife.com/"@,
            r.item_selector@ == "tbody > tr > *:first-child > a"@,
            r.category_selector@
                == ".wiki_table:nth-child(1) > tbody > :nth-child(5) > td:nth-child(1) > a"@,
            r.attributes_selector@
                == ".wiki_table:nth-child(1) > tbody > :nth-child(4) > td > .lineleft"@,
    {
        Site {
            index_url: String::from_str("https://eldenring.wiki.fextralife.com/Weapons+Comparison+Tables"),
            base_url: String::from_str("https://eldenring.wiki.fextralife.com/"),
            item_selector: String::from_str("tbody > tr > *:first-child > a"),
            category_selector: String::from_str(
                ".wiki_table:nth-child(1) > tbody > :nth-child(5) > td:nth-child(1) > a",
            ),
            attributes_selector: String::from_str(
                ".wiki_table:nth-child(1) > tbody > :nth-child(4) > td > .lineleft",
            ),
        }
    }
}

/// Whether `scraper::Selector::parse` accepts a selector.
pub uninterp spec fn selector_parses(selector: Seq<char>) -> bool;

/// What `scraper` selects in a page: for each element that the selector
/// matches, in document order, its descendant text fragments.
pub uninterp spec fn selected_texts(page: Seq<char>, selector: Seq<char>) -> Seq<Seq<Seq<char>>>;

/// Relies on `scraper::Html::parse_document` (which accepts any text),
/// `scraper::Selector::parse`, `scraper::Html::select` and
/// `scraper::ElementRef::text`: `None` exactly when the selector does not
/// parse, else the text fragments of each match; both depend on the
/// arguments alone.
#[verifier::external_body]
pub(crate) fn select_texts(page: &str, selector: &str) -> (r: Option<Vec<Vec<String>>>)
    ensures
        r is Some <==> selector_parses(selector@),
        r matches Some(v) ==> v.deep_view() == selected_texts(page@, selector@),
{
    let sel = scraper::Selector::parse(selector).ok()?;
    let doc = scraper::Html::parse_document(page);
    Some(doc.select(&sel).map(|e| e.text().map(|t| t.to_string()).collect()).collect())
}

/// The text of each match: its fragments joined.
pub open spec fn joined_texts(matches: Seq<Seq<Seq<char>>>) -> Seq<Seq<char>> {
    matches.map_values(|m: Seq<Seq<char>>| concat_all(m))
}

/// The text of each match, its fragments joined.
pub fn join_each(matches: &Vec<Vec<String>>) -> (r: Vec<String>)
    ensures
        r.deep_view() == joined_texts(matches.deep_view()),
{
    let mut r: Vec<String> = Vec::new();
    let mut i: usize = 0;
    while i < matches.len()
        invariant
            i <= matches.len(),
            r@.len() == i,
            forall|j: int| 0 <= j < i ==> (#[trigger] r@[j])@ == concat_all(matches@[j].deep_view()),
        decreases matches.len() - i,
    {
        r.push(join_parts(&matches[i]));
        i = i + 1;
    }
    assert(r.deep_view() =~= joined_texts(matches.deep_view()));
    r
}

/// The category recorded when a page shows none.
pub open spec fn no_type_found() -> Seq<char> {
    "No type found"@
}

/// The one item whose category the wiki gives wrongly.
pub open spec fn anomaly_name() -> Seq<char> {
    "Steel-Wire Torch"@
}

/// The category that item really has.
pub open spec fn anomaly_category() -> Seq<char> {
    "Torch"@
}

/// The scraped category: the text of the last category match, or the
/// sentinel where nothing matched.
pub open spec fn scraped_category(categories: Seq<Seq<char>>) -> Seq<char> {
    if categories.len() == 0 {
        no_type_found()
    } else {
        categories.last()
    }
}

/// The recorded category: the corrected one for the anomalous item, the
/// scraped one otherwise.
pub open spec fn recorded_category(name: Seq<char>, categories: Seq<Seq<char>>) -> Seq<char> {
    if name == anomaly_name() {
        anomaly_category()
    } else {
        scraped_category(categories)
    }
}

/// The record of an item, from its name, its category matches and its
/// normalised requirements text.
pub open spec fn expected_weapon(name: Seq<char>, categories: Seq<Seq<char>>, text: Seq<char>) -> WeaponModel {
    WeaponModel {
        category: recorded_category(name, categories),
        name: name,
        requirements: paired(name_tokens_of(text), value_tokens_of(text), name_tokens_of(text).len()),
        scalings: Scalings::spec_undetermined(),
    }
}

/// Whether `r` is what the normalised requirements text `text` gives: the
/// expected record when every name token names an attribute, else the
/// first token that does not.
pub open spec fn text_outcome(
    r: Result<Weapon, PageError>,
    name: Seq<char>,
    categories: Seq<Seq<char>>,
    text: Seq<char>,
) -> bool {
    match r {
        Ok(w) => all_known(name_tokens_of(text)) && w@ == expected_weapon(name, categories, text),
        Err(PageError::UnknownStat(t)) => !all_known(name_tokens_of(text)) && first_unknown(name_tokens_of(text), t@),
        Err(_) => false,
    }
}

/// Whether `r` is what a page gives whose category matches are
/// `categories` and whose attribute-text matches have the text fragments
/// `blocks`: the second block holds the requirements.
pub open spec fn parts_outcome(
    r: Result<Weapon, PageError>,
    name: Seq<char>,
    categories: Seq<Seq<char>>,
    blocks: Seq<Seq<Seq<char>>>,
) -> bool {
    if blocks.len() < 2 {
        r matches Err(PageError::MissingRequirements)
    } else {
        text_outcome(r, name, categories, normalized(blocks[1]))
    }
}

/// A page where nothing matches the category selector records the
/// sentinel category, for every item but the one whose category is
/// corrected.
pub proof fn lemma_category_fallback(
    r: Result<Weapon, PageError>,
    name: Seq<char>,
    blocks: Seq<Seq<Seq<char>>>,
)
    requires
        parts_outcome(r, name, Seq::empty(), blocks),
        name != anomaly_name(),
        r is Ok,
    ensures
        r->Ok_0.category@ == no_type_found(),
{
}

/// The item whose category the wiki gives wrongly is recorded with the
/// corrected category, whatever the page shows.
pub proof fn lemma_override_wins(
    r: Result<Weapon, PageError>,
    categories: Seq<Seq<char>>,
    blocks: Seq<Seq<Seq<char>>>,
)
    requires
        parts_outcome(r, anomaly_name(), categories, blocks),
        r is Ok,
    ensures
        r->Ok_0.category@ == anomaly_category(),
{
}

/// Requirements text with a three-letter run that names no attribute gives
/// no record: the error carries the first such run.
pub proof fn lemma_unknown_token_rejected(
    r: Result<Weapon, PageError>,
    name: Seq<char>,
    categories: Seq<Seq<char>>,
    text: Seq<char>,
    i: int,
)
    requires
        text_outcome(r, name, categories, text),
        0 <= i < name_tokens_of(text).len(),
        stat_of(name_tokens_of(text)[i]) is None,
    ensures
        r matches Err(PageError::UnknownStat(t)) && first_unknown(name_tokens_of(text), t@),
{
}

/// The record of an item from its name, the texts of its category matches
/// and its normalised requirements text.
pub fn weapon_from_text(name: &str, categories: &Vec<String>, text: &str) -> (r: Result<Weapon, PageError>)
    ensures
        text_outcome(r, name@, categories.deep_view(), text@),
{
    let names = name_tokens(text);
    let values = value_tokens(text);
    let requirements = match build_requirements(&names, &values) {
        Ok(q) => q,
        Err(e) => return Err(e),
    };
    let mut category = String::from_str("No type found");
    let mut i: usize = 0;
    while i < categories.len()
        invariant
            i <= categories.len(),
            category@ == scraped_category(categories.deep_view().subrange(0, i as int)),
        decreases categories.len() - i,
    {
        category = categories[i].clone();
        i = i + 1;
    }
    assert(categories.deep_view().subrange(0, i as int) =~= categories.deep_view());
    let owned_name = String::from_str(name);
    if owned_name == String::from_str("Steel-Wire Torch") {
        category = String::from_str("Torch");
    }
    Ok(Weapon { category, name: owned_name, requirements, scalings: Scalings::undetermined() })
}

/// The record of an item from its name, the texts of its category matches
/// and the text fragments of its attribute-text matches. The first block
/// holds the scaling grades, which are not read: the grades stay
/// undetermined.
pub fn weapon_from_parts(name: &str, categories: &Vec<String>, blocks: &Vec<Vec<String>>) -> (r: Result<Weapon, PageError>)
    ensures
        parts_outcome(r, name@, categories.deep_view(), blocks.deep_view()),
{
    if blocks.len() < 2 {
        return Err(PageError::MissingRequirements);
    }
    let text = normalize(&blocks[1]);
    weapon_from_text(name, categories, text.as_str())
}

/// The record of an item from the markup of its detail page: the category
/// is the text of the last category match, the requirements come from the
/// second attribute-text match.
pub fn weapon_from_page(page: &str, name: &str, site: &Site) -> (r: Result<Weapon, PageError>)
    ensures
        !selector_parses(site.category_selector@) ==> (r matches Err(PageError::BadSelector(s))
            && s@ == site.category_selector@),
        selector_parses(site.category_selector@) && !selector_parses(site.attributes_selector@)
            ==> (r matches Err(PageError::BadSelector(s)) && s@ == site.attributes_selector@),
        selector_parses(site.category_selector@) && selector_parses(site.attributes_selector@)
            ==> parts_outcome(
            r,
            name@,
            joined_texts(selected_texts(page@, site.category_selector@)),
            selected_texts(page@, site.attributes_selector@),
        ),
{
    let category_matches = match select_texts(page, site.category_selector.as_str()) {
        Some(m) => m,
        None => return Err(PageError::BadSelector(site.category_selector.clone())),
    };
    let blocks = match select_texts(page, site.attributes_selector.as_str()) {
        Some(m) => m,
        None => return Err(PageError::BadSelector(site.attributes_selector.clone())),
    };
    let categories = join_each(&category_matches);
    weapon_from_parts(name, &categories, &blocks)
}

} // verus!
