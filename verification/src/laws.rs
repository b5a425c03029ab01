//! What holds of the registry's operations, whatever the document.

use vstd::prelude::*;
use crate::account::{ItemView, RegistryView};
use crate::layout::{lemma_items_len_links, lemma_items_len_lower_bound};

verus! {

/// The most entries that a document within the reserved space can hold.
pub const MAX_ITEMS: usize = 204;

/// A submission adds exactly one entry, at the end: it holds the link and the
/// submitter as given and has no votes. The entries before it are as they
/// were, and the count is one higher.
pub proof fn lemma_appended_entry(r: RegistryView, link: Seq<char>, submitter: [u8; 32])
    ensures
        r.appended(link, submitter).total_count == r.total_count + 1,
        r.appended(link, submitter).items.len() == r.items.len() + 1,
        r.appended(link, submitter).items.last() == (ItemView { link, submitter, votes: 0 }),
        r.appended(link, submitter).items.drop_last() == r.items,
{
    assert(r.appended(link, submitter).items.drop_last() =~= r.items);
}

/// The newly created registry is well-formed.
pub proof fn lemma_empty_wf()
    ensures
        RegistryView::empty().wf(),
{
}

/// A submission keeps the document well-formed where it still fits.
pub proof fn lemma_appended_wf(r: RegistryView, link: Seq<char>, submitter: [u8; 32])
    requires
        r.wf(),
        r.appended(link, submitter).fits(),
    ensures
        r.appended(link, submitter).wf(),
{
}

/// A change of one tally changes no size.
pub proof fn lemma_with_votes_len(r: RegistryView, index: int, votes: int)
    requires
        r.in_range(index),
    ensures
        r.with_votes(index, votes).document_len() == r.document_len(),
{
    lemma_items_len_links(r.with_votes(index, votes).items, r.items);
}

/// A vote for an entry keeps the document well-formed.
pub proof fn lemma_up_voted_wf(r: RegistryView, index: int)
    requires
        r.wf(),
        r.in_range(index),
    ensures
        r.up_voted(index).wf(),
{
    lemma_with_votes_len(r, index, r.items[index].votes + 1);
}

/// A vote against an entry keeps the document well-formed.
pub proof fn lemma_down_voted_wf(r: RegistryView, index: int)
    requires
        r.wf(),
        r.in_range(index),
    ensures
        r.down_voted(index).wf(),
{
    lemma_with_votes_len(r, index, r.items[index].votes - 1);
}

/// A vote changes the tally of the entry that it names and nothing else:
/// not the count, not the number of entries, no link, no submitter and no
/// other tally.
pub proof fn lemma_vote_touches_one_tally(r: RegistryView, index: int, votes: int)
    requires
        r.in_range(index),
    ensures
        r.with_votes(index, votes).total_count == r.total_count,
        r.with_votes(index, votes).items.len() == r.items.len(),
        r.with_votes(index, votes).items[index].votes == votes,
        forall|i: int|
            0 <= i < r.items.len() ==> {
                &&& (#[trigger] r.with_votes(index, votes).items[i]).link == r.items[i].link
                &&& r.with_votes(index, votes).items[i].submitter == r.items[i].submitter
                &&& i != index ==> r.with_votes(index, votes).items[i] == r.items[i]
            },
{
}

/// A vote for an entry and then a vote against it leave the registry as it
/// was, where the entry's tally was not below zero.
pub proof fn lemma_up_vote_then_down_vote(r: RegistryView, index: int)
    requires
        r.in_range(index),
        r.items[index].votes >= 0,
    ensures
        r.up_voted(index).down_voted(index) == r,
{
    assert(r.up_voted(index).down_voted(index).items =~= r.items);
}

/// A vote against an entry with no votes changes nothing, however often it
/// is repeated.
pub proof fn lemma_down_vote_at_zero(r: RegistryView, index: int)
    requires
        r.in_range(index),
        r.items[index].votes == 0,
    ensures
        r.down_voted(index) == r,
        r.down_voted(index).down_voted(index) == r,
{
}

/// A vote against an entry never takes its tally below zero, and lowers it
/// by one where it was above.
pub proof fn lemma_down_vote_floor(r: RegistryView, index: int)
    requires
        r.in_range(index),
    ensures
        r.items[index].votes > 0 ==> r.down_voted(index).items[index].votes == r.items[index].votes
            - 1,
        r.items[index].votes <= 0 ==> r.down_voted(index) == r,
        r.items[index].votes >= 0 ==> r.down_voted(index).items[index].votes >= 0,
{
}

/// A document within the reserved space holds at most `MAX_ITEMS` entries.
pub proof fn lemma_fits_bounds_entries(r: RegistryView)
    requires
        r.fits(),
    ensures
        r.items.len() <= MAX_ITEMS,
{
    lemma_items_len_lower_bound(r.items);
}

} // verus!
