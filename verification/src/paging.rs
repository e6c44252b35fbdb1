//! Reading a list that the remote side hands out page by page. The driver
//! fetches the pages; what to keep of a page and whether to ask for
//! another is decided here.

use crate::error::{Error, ErrorView};
use crate::seqs::lemma_filter_map_empty;
use vstd::prelude::*;

verus! {

/// One entry of a page: where it stands in the list, and the item, if the
/// remote side gave one.
pub struct PageEdge<T> {
    pub cursor: String,
    pub item: Option<T>,
}

/// One page of a list.
pub struct Page<T> {
    /// How many items the whole list has.
    pub total_count: i64,
    pub edges: Vec<Option<PageEdge<T>>>,
}

/// What to do after a page.
#[derive(Debug, PartialEq, Eq)]
pub enum PageStep {
    /// The list is complete.
    Done,
    /// Ask for the page after this position, or for the first page where
    /// there is none.
    More { after: Option<String> },
}

/// What is said of an answer that holds no page.
pub const NO_PAGE_MESSAGE: &'static str = "error parsing paginated query response";

/// Whether an entry holds an item.
pub open spec fn has_item<T>() -> spec_fn(Option<PageEdge<T>>) -> bool {
    |edge: Option<PageEdge<T>>| edge is Some && edge->Some_0.item is Some
}

/// The item that an entry holds.
pub open spec fn item_of<T>() -> spec_fn(Option<PageEdge<T>>) -> T {
    |edge: Option<PageEdge<T>>| edge->Some_0.item->Some_0
}

/// The items of a page, in order.
pub open spec fn page_items<T>(edges: Seq<Option<PageEdge<T>>>) -> Seq<T> {
    edges.filter(has_item()).map_values(item_of())
}

/// The position after which the next page begins: that of the page's last
/// entry, if that entry is there.
pub open spec fn next_position<T>(edges: Seq<Option<PageEdge<T>>>) -> Option<Seq<char>> {
    if edges.len() > 0 && edges.last() is Some {
        Some(edges.last()->Some_0.cursor@)
    } else {
        None
    }
}

/// What has been collected after a page: an empty page adds nothing, any
/// other its items.
pub open spec fn collected_after<T>(collected: Seq<T>, edges: Seq<Option<PageEdge<T>>>) -> Seq<
    T,
> {
    collected + page_items(edges)
}

/// Whether the list is complete after a page: the page is empty, or as many
/// items have been collected as the list is said to have.
pub open spec fn list_complete<T>(
    collected: Seq<T>,
    total_count: int,
    edges: Seq<Option<PageEdge<T>>>,
) -> bool {
    edges.len() == 0 || (0 <= total_count && total_count <= collected_after(
        collected,
        edges,
    ).len())
}

/// Takes in the answer to the request for a page: adds the page's items to
/// `collected` and says whether to ask for another page. An answer without
/// a page is a failure and adds nothing.
pub fn absorb_page<T>(collected: &mut Vec<T>, page: Option<Page<T>>) -> (r: Result<
    PageStep,
    Error,
>)
    ensures
        match page {
            None => (r matches Err(error) && error@ == (ErrorView::Response {
                message: NO_PAGE_MESSAGE@,
            })) && final(collected)@ == old(collected)@,
            Some(page) => {
                &&& final(collected)@ == collected_after(old(collected)@, page.edges@)
                &&& list_complete(old(collected)@, page.total_count as int, page.edges@) ==> r
                    == Ok::<PageStep, Error>(PageStep::Done)
                &&& !list_complete(old(collected)@, page.total_count as int, page.edges@) ==> (r
                    matches Ok(PageStep::More { after }) && after.deep_view() == next_position(
                    page.edges@,
                ))
            },
        },
{
    let page = match page {
        Some(page) => page,
        None => {
            return Err(Error::Response { message: String::from_str(NO_PAGE_MESSAGE) });
        },
    };
    let ghost start = collected@;
    let ghost all = page.edges@;
    let total_count = page.total_count;
    let mut edges = page.edges;
    let count: usize = edges.len();
    let after: Option<String> = if count > 0 {
        match &edges[count - 1] {
            Some(edge) => Some(edge.cursor.clone()),
            None => None,
        }
    } else {
        None
    };
    // The entries are taken from the end and their items put back in order.
    let mut items: Vec<T> = Vec::new();
    proof {
        reveal(Seq::filter);
        lemma_filter_map_empty(has_item::<T>(), item_of::<T>());
    }
    while edges.len() > 0
        invariant
            edges@ == all.take(edges.len() as int),
            edges.len() <= all.len(),
            items@.reverse() == page_items(all.skip(edges.len() as int)),
        decreases edges.len(),
    {
        let ghost n = edges.len() - 1;
        let edge = edges.pop().unwrap();
        proof {
            assert(all.skip(n) =~= seq![all[n]] + all.skip(n + 1));
            lemma_page_items_cons(all[n], all.skip(n + 1));
        }
        match edge {
            Some(PageEdge { item: Some(item), .. }) => {
                items.push(item);
            },
            _ => {},
        }
    }
    proof {
        assert(all.skip(0) =~= all);
    }
    let ghost found = items@;
    while items.len() > 0
        invariant
            items@ == found.take(items.len() as int),
            items.len() <= found.len(),
            collected@ == start + found.reverse().take(found.len() - items.len()),
        decreases items.len(),
    {
        let item = items.pop().unwrap();
        collected.push(item);
    }
    if count == 0 {
        return Ok(PageStep::Done);
    }
    if total_count >= 0 && (total_count as u64) <= collected.len() as u64 {
        return Ok(PageStep::Done);
    }
    Ok(PageStep::More { after })
}

/// The items of a page that begins with `edge` are the item of `edge`, if
/// it holds one, and the items of the rest.
pub proof fn lemma_page_items_cons<T>(edge: Option<PageEdge<T>>, rest: Seq<Option<PageEdge<T>>>)
    ensures
        page_items(seq![edge] + rest) == if has_item()(edge) {
            seq![item_of()(edge)] + page_items(rest)
        } else {
            page_items(rest)
        },
{
    let keep = has_item::<T>();
    let first = seq![edge];
    Seq::filter_distributes_over_add(first, rest, keep);
    reveal(Seq::filter);
    assert(first.drop_last().filter(keep) =~= Seq::<Option<PageEdge<T>>>::empty());
}

} // verus!
