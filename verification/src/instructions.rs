//! The four instructions of the registry.
//!
//! Each takes the accounts of one invocation: the document and the identity
//! of the caller, which the host has authenticated. An instruction that fails
//! leaves the accounts exactly as they were.

use vstd::prelude::*;
use crate::account::{BaseAccount, ItemStruct, ItemView, RegistryView};
use crate::laws::{lemma_appended_wf, lemma_down_voted_wf, lemma_up_voted_wf};
use crate::layout::{lemma_items_len_lower_bound, lemma_items_len_push, ITEM_OVERHEAD};

verus! {

/// Why an instruction was rejected.
#[derive(Debug, Clone, Copy, PartialEq, Eq, Structural)]
pub enum RegistryError {
    /// A vote named a position at which the registry holds no entry.
    IndexOutOfRange,
    /// An entry would not fit in the space reserved for the document.
    StorageExhausted,
}

/// The accounts of the invocation that creates the registry.
#[derive(Debug, PartialEq, Eq)]
pub struct Initialize {
    pub base_account: BaseAccount,
    pub user: [u8; 32],
}

/// The accounts of an invocation that changes the registry.
#[derive(Debug, PartialEq, Eq)]
pub struct Update {
    pub base_account: BaseAccount,
    pub user: [u8; 32],
}

impl Clone for Initialize {
    fn clone(&self) -> (res: Self)
        ensures
            res.base_account@ == self.base_account@,
            res.user == self.user,
    {
        Initialize { base_account: self.base_account.clone(), user: self.user }
    }
}

impl Clone for Update {
    fn clone(&self) -> (res: Self)
        ensures
            res.base_account@ == self.base_account@,
            res.user == self.user,
    {
        Update { base_account: self.base_account.clone(), user: self.user }
    }
}

/// Creates the registry: the document holds no entry and its count is zero.
pub fn initialize(ctx: &mut Initialize) -> (res: Result<(), RegistryError>)
    ensures
        res is Ok,
        final(ctx).base_account@ == RegistryView::empty(),
        final(ctx).base_account@.wf(),
        final(ctx).user == old(ctx).user,
{
    ctx.base_account.total_gifs = 0;
    ctx.base_account.gif_list.clear();
    assert(ctx.base_account@.items =~= Seq::empty());
    Ok(())
}

/// Submits `gif_link` in the caller's name.
///
/// The entry goes to the end of the list with no votes, and the count goes up
/// by one. Where the document with the entry would be larger than the space
/// reserved for it, the submission fails with `StorageExhausted`.
pub fn add_gif(ctx: &mut Update, gif_link: String) -> (res: Result<(), RegistryError>)
    requires
        old(ctx).base_account@.counted(),
    ensures
        final(ctx).user == old(ctx).user,
        match res {
            Ok(()) => {
                &&& old(ctx).base_account@.appended(gif_link@, old(ctx).user).fits()
                &&& final(ctx).base_account@ == old(ctx).base_account@.appended(
                    gif_link@,
                    old(ctx).user,
                )
            },
            Err(e) => {
                &&& e == RegistryError::StorageExhausted
                &&& !old(ctx).base_account@.appended(gif_link@, old(ctx).user).fits()
                &&& *final(ctx) == *old(ctx)
            },
        },
        old(ctx).base_account@.wf() ==> final(ctx).base_account@.wf(),
{
    let ghost before = ctx.base_account@;
    let ghost after = before.appended(gif_link@, ctx.user);
    proof {
        lemma_items_len_push(before.items, ItemView::fresh(gif_link@, ctx.user));
        lemma_items_len_lower_bound(after.items);
    }
    let left = match ctx.base_account.space_left() {
        Some(left) => left,
        None => {
            return Err(RegistryError::StorageExhausted);
        },
    };
    let n = gif_link.as_str().as_bytes().len();
    if n > left || left - n < ITEM_OVERHEAD {
        return Err(RegistryError::StorageExhausted);
    }
    let item = ItemStruct { gif_link, user_address: ctx.user, votes: 0 };
    ctx.base_account.gif_list.push(item);
    ctx.base_account.total_gifs += 1;
    proof {
        assert(ctx.base_account@.items =~= after.items);
        if before.wf() {
            lemma_appended_wf(before, gif_link@, ctx.user);
        }
    }
    Ok(())
}

/// Votes for the entry at `index`: its tally goes up by one.
///
/// Fails with `IndexOutOfRange` where the registry holds no entry at `index`.
/// The tally has no ceiling of its own; a caller keeps it below the largest
/// `i64`.
pub fn up_vote(ctx: &mut Update, index: i64) -> (res: Result<(), RegistryError>)
    requires
        old(ctx).base_account@.in_range(index as int) ==> old(ctx).base_account@.items[index as int].votes
            < i64::MAX,
    ensures
        final(ctx).user == old(ctx).user,
        match res {
            Ok(()) => {
                &&& old(ctx).base_account@.in_range(index as int)
                &&& final(ctx).base_account@ == old(ctx).base_account@.up_voted(index as int)
            },
            Err(e) => {
                &&& e == RegistryError::IndexOutOfRange
                &&& !old(ctx).base_account@.in_range(index as int)
                &&& *final(ctx) == *old(ctx)
            },
        },
        old(ctx).base_account@.wf() ==> final(ctx).base_account@.wf(),
{
    let ghost before = ctx.base_account@;
    let i = match ctx.base_account.position(index) {
        Some(i) => i,
        None => {
            return Err(RegistryError::IndexOutOfRange);
        },
    };
    ctx.base_account.gif_list[i].votes += 1;
    proof {
        assert(ctx.base_account@.items =~= before.up_voted(index as int).items);
        if before.wf() {
            lemma_up_voted_wf(before, index as int);
        }
    }
    Ok(())
}

/// Votes against the entry at `index`: its tally goes down by one where it is
/// above zero, and stays as it is otherwise.
///
/// Fails with `IndexOutOfRange` where the registry holds no entry at `index`.
pub fn down_vote(ctx: &mut Update, index: i64) -> (res: Result<(), RegistryError>)
    ensures
        final(ctx).user == old(ctx).user,
        match res {
            Ok(()) => {
                &&& old(ctx).base_account@.in_range(index as int)
                &&& final(ctx).base_account@ == old(ctx).base_account@.down_voted(index as int)
            },
            Err(e) => {
                &&& e == RegistryError::IndexOutOfRange
                &&& !old(ctx).base_account@.in_range(index as int)
                &&& *final(ctx) == *old(ctx)
            },
        },
        old(ctx).base_account@.wf() ==> final(ctx).base_account@.wf(),
{
    let ghost before = ctx.base_account@;
    let i = match ctx.base_account.position(index) {
        Some(i) => i,
        None => {
            return Err(RegistryError::IndexOutOfRange);
        },
    };
    if ctx.base_account.gif_list[i].votes > 0 {
        ctx.base_account.gif_list[i].votes -= 1;
    }
    proof {
        assert(ctx.base_account@.items =~= before.down_voted(index as int).items);
        if before.wf() {
            lemma_down_voted_wf(before, index as int);
        }
    }
    Ok(())
}

} // verus!
