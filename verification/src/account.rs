//! The registry document and its mathematical model.

use vstd::prelude::*;

verus! {

/// Model of one entry: the link as text, the submitter's identity, and the
/// vote tally.
pub struct ItemView {
    pub link: Seq<char>,
    pub submitter: [u8; 32],
    pub votes: int,
}

/// Model of the whole document.
pub struct RegistryView {
    pub total_count: nat,
    pub items: Seq<ItemView>,
}

/// One submitted link with the identity that submitted it and its votes.
#[derive(Debug, PartialEq, Eq)]
pub struct ItemStruct {
    pub gif_link: String,
    pub user_address: [u8; 32],
    pub votes: i64,
}

/// The registry document: the number of entries and the entries in the
/// order in which they were submitted.
#[derive(Debug, PartialEq, Eq)]
pub struct BaseAccount {
    pub total_gifs: u64,
    pub gif_list: Vec<ItemStruct>,
}

impl View for ItemStruct {
    type V = ItemView;

    open spec fn view(&self) -> ItemView {
        ItemView { link: self.gif_link@, submitter: self.user_address, votes: self.votes as int }
    }
}

impl View for BaseAccount {
    type V = RegistryView;

    open spec fn view(&self) -> RegistryView {
        RegistryView {
            total_count: self.total_gifs as nat,
            items: self.gif_list@.map_values(|item: ItemStruct| item@),
        }
    }
}

impl Clone for ItemStruct {
    fn clone(&self) -> (res: Self)
        ensures
            res == *self,
    {
        ItemStruct {
            gif_link: self.gif_link.clone(),
            user_address: self.user_address,
            votes: self.votes,
        }
    }
}

impl Clone for BaseAccount {
    fn clone(&self) -> (res: Self)
        ensures
            res@ == self@,
    {
        let res = BaseAccount { total_gifs: self.total_gifs, gif_list: self.gif_list.clone() };
        assert(res@.items =~= self@.items);
        res
    }
}

impl BaseAccount {
    /// Whether the count mirrors the list.
    pub fn is_counted(&self) -> (counted: bool)
        ensures
            counted == self@.counted(),
    {
        self.gif_list.len() as u64 == self.total_gifs
    }

    /// The position in the list that `index` names, or `None` where the
    /// registry holds no entry there.
    pub fn position(&self, index: i64) -> (position: Option<usize>)
        ensures
            match position {
                Some(i) => self@.in_range(index as int) && i == index,
                None => !self@.in_range(index as int),
            },
    {
        if index < 0 || index as u64 >= self.gif_list.len() as u64 {
            None
        } else {
            Some(index as usize)
        }
    }
}

impl ItemView {
    /// The entry that a submission creates: no votes yet.
    pub open spec fn fresh(link: Seq<char>, submitter: [u8; 32]) -> ItemView {
        ItemView { link, submitter, votes: 0 }
    }

    /// The same entry with another tally.
    pub open spec fn with_votes(self, votes: int) -> ItemView {
        ItemView { votes, ..self }
    }
}

impl RegistryView {
    /// The registry as it is created: nothing submitted.
    pub open spec fn empty() -> RegistryView {
        RegistryView { total_count: 0, items: Seq::empty() }
    }

    /// The count mirrors the list.
    pub open spec fn counted(self) -> bool {
        self.total_count == self.items.len()
    }

    /// No tally is below zero.
    pub open spec fn tallies_nonnegative(self) -> bool {
        forall|i: int| 0 <= i < self.items.len() ==> (#[trigger] self.items[i]).votes >= 0
    }

    /// What holds of the document between any two instructions: the count
    /// mirrors the list, no tally is below zero, and the document fits in the
    /// space reserved for it.
    pub open spec fn wf(self) -> bool {
        &&& self.counted()
        &&& self.tallies_nonnegative()
        &&& self.fits()
    }

    /// `index` names an entry.
    pub open spec fn in_range(self, index: int) -> bool {
        0 <= index < self.items.len()
    }

    /// The registry after a submission: one more entry at the end, with the
    /// link and the submitter as given and no votes, and the count one higher.
    pub open spec fn appended(self, link: Seq<char>, submitter: [u8; 32]) -> RegistryView {
        RegistryView {
            total_count: self.total_count + 1,
            items: self.items.push(ItemView::fresh(link, submitter)),
        }
    }

    /// The registry with the tally of the entry at `index` set to `votes` and
    /// all else as it was.
    pub open spec fn with_votes(self, index: int, votes: int) -> RegistryView
        recommends
            self.in_range(index),
    {
        RegistryView { items: self.items.update(index, self.items[index].with_votes(votes)), ..self }
    }

    /// The registry after a vote for the entry at `index`: its tally is one
    /// higher.
    pub open spec fn up_voted(self, index: int) -> RegistryView
        recommends
            self.in_range(index),
    {
        self.with_votes(index, self.items[index].votes + 1)
    }

    /// The registry after a vote against the entry at `index`: its tally is
    /// one lower where it was above zero, and the registry is as it was
    /// otherwise.
    pub open spec fn down_voted(self, index: int) -> RegistryView
        recommends
            self.in_range(index),
    {
        if self.items[index].votes > 0 {
            self.with_votes(index, self.items[index].votes - 1)
        } else {
            self
        }
    }
}

} // verus!
