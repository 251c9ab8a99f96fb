//! The index page walker: item names and the addresses of their detail
//! pages.

use vstd::prelude::*;
use crate::page::{join_each, joined_texts, select_texts, selected_texts, selector_parses, Site};
use crate::record::PageError;
use crate::text::{link_ready, plus_for_spaces};

verus! {

/// An item listed on the index page, with the address of its detail page.
pub struct ItemLink {
    pub name: String,
    pub url: String,
}

/// The detail page address of an item: the base address followed by the
/// name with every space replaced by a plus sign.
pub open spec fn detail_url_of(base: Seq<char>, name: Seq<char>) -> Seq<char> {
    base + plus_for_spaces(name)
}

/// The detail page address of an item.
pub fn detail_url(base: &str, name: &str) -> (r: String)
    ensures
        r@ == detail_url_of(base@, name@),
{
    let mut r = String::from_str(base);
    let tail = link_ready(name);
    r.append(tail.as_str());
    r
}

/// Whether `links` pairs each of `names`, in order, with its detail page.
pub open spec fn links_of(links: Seq<ItemLink>, base: Seq<char>, names: Seq<Seq<char>>) -> bool {
    &&& links.len() == names.len()
    &&& forall|i: int| 0 <= i < links.len() ==>
            (#[trigger] links[i]).name@ == names[i] && links[i].url@ == detail_url_of(base, names[i])
}

/// Each item name, in order, with its detail page address; names are
/// neither deduplicated nor checked.
pub fn item_links(base: &str, names: &Vec<String>) -> (r: Vec<ItemLink>)
    ensures
        links_of(r@, base@, names.deep_view()),
{
    let mut r: Vec<ItemLink> = Vec::new();
    let mut i: usize = 0;
    while i < names.len()
        invariant
            i <= names.len(),
            links_of(r@, base@, names.deep_view().subrange(0, i as int)),
        decreases names.len() - i,
    {
        let url = detail_url(base, names[i].as_str());
        r.push(ItemLink { name: names[i].clone(), url });
        i = i + 1;
        assert(links_of(r@, base@, names.deep_view().subrange(0, i as int))) by {
            assert(forall|j: int| 0 <= j < i ==> names.deep_view().subrange(0, i as int)[j] == names[j]@);
        }
    }
    assert(names.deep_view().subrange(0, i as int) =~= names.deep_view());
    r
}

/// The items of an index page, in document order: each name is the text
/// of a matching anchor, with its detail page address.
pub fn walk_index(page: &str, site: &Site) -> (r: Result<Vec<ItemLink>, PageError>)
    ensures
        r is Ok <==> selector_parses(site.item_selector@),
        (r matches Err(e) ==> (e matches PageError::BadSelector(s) && s@ == site.item_selector@)),
        (r matches Ok(links) ==> links_of(
            links@,
            site.base_url@,
            joined_texts(selected_texts(page@, site.item_selector@)),
        )),
{
    let found = match select_texts(page, site.item_selector.as_str()) {
        Some(m) => m,
        None => return Err(PageError::BadSelector(site.item_selector.clone())),
    };
    let names = join_each(&found);
    Ok(item_links(site.base_url.as_str(), &names))
}

} // verus!
