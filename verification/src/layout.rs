//! The persisted layout of the registry document, and its size.
//!
//! The document is stored in a region of `SPACE` bytes. The host writes a tag
//! of `DISCRIMINATOR_LEN` bytes at its start; the registry follows:
//!
//! ```text
//! total count   u64, little-endian
//! entry count   u32, little-endian
//! entries       one after another, each:
//!   link length   u32, little-endian
//!   link          its UTF-8 bytes
//!   submitter     32 bytes
//!   votes         i64, little-endian two's complement
//! ```

use vstd::prelude::*;
use vstd::array::array_as_slice;
use vstd::bytes::{
    lemma_auto_spec_u32_to_from_le_bytes, lemma_auto_spec_u64_to_from_le_bytes,
    spec_u32_to_le_bytes, spec_u64_to_le_bytes, u32_to_le_bytes, u64_to_le_bytes,
};
use vstd::utf8::encode_utf8;
use crate::account::{BaseAccount, ItemStruct, ItemView, RegistryView};

verus! {

/// Bytes reserved for the document when it is created. It never grows.
pub const SPACE: usize = 9000;

/// Bytes at the start of the reserved space that hold the host's tag.
pub const DISCRIMINATOR_LEN: usize = 8;

/// Bytes of the total count.
pub const COUNT_LEN: usize = 8;

/// Bytes of a length prefix.
pub const PREFIX_LEN: usize = 4;

/// Bytes of a submitter's identity.
pub const ADDRESS_LEN: usize = 32;

/// Bytes of a vote tally.
pub const VOTES_LEN: usize = 8;

/// Bytes that an entry takes besides its link: a length prefix, the
/// submitter and the votes.
pub const ITEM_OVERHEAD: usize = 44;

/// Bytes that the host's tag and an empty registry take: the tag, the total
/// count and the entry count.
pub const EMPTY_LEN: usize = 20;

impl ItemView {
    /// The link as it is stored: its UTF-8 bytes.
    pub open spec fn link_bytes(self) -> Seq<u8> {
        encode_utf8(self.link)
    }

    /// Number of bytes that the entry takes in the document.
    pub open spec fn encoded_len(self) -> nat {
        (PREFIX_LEN + self.link_bytes().len() + ADDRESS_LEN + VOTES_LEN) as nat
    }

    /// The entry as it is stored: the length of the link in four bytes, the
    /// link, the submitter, and the votes in eight bytes, a tally below zero
    /// in two's complement. An entry of a document that fits in the reserved
    /// space has a length that four bytes hold.
    pub open spec fn encoding(self) -> Seq<u8> {
        spec_u32_to_le_bytes(self.link_bytes().len() as u32) + self.link_bytes()
            + self.submitter@ + spec_u64_to_le_bytes(self.votes as i64 as u64)
    }
}

/// Number of bytes that a run of entries takes.
pub open spec fn items_len(items: Seq<ItemView>) -> nat
    decreases items.len(),
{
    if items.len() == 0 {
        0
    } else {
        items_len(items.drop_last()) + items.last().encoded_len()
    }
}

/// A run of entries as it is stored: the entries one after another.
pub open spec fn items_encoding(items: Seq<ItemView>) -> Seq<u8>
    decreases items.len(),
{
    if items.len() == 0 {
        Seq::empty()
    } else {
        items_encoding(items.drop_last()) + items.last().encoding()
    }
}

impl RegistryView {
    /// Number of bytes of the reserved space that the document uses, the
    /// host's tag included.
    pub open spec fn document_len(self) -> nat {
        (DISCRIMINATOR_LEN + COUNT_LEN + PREFIX_LEN) as nat + items_len(self.items)
    }

    /// The registry as it is stored behind the host's tag: the total count
    /// in eight bytes, the number of entries in four, and the entries.
    pub open spec fn encoding(self) -> Seq<u8> {
        spec_u64_to_le_bytes(self.total_count as u64) + spec_u32_to_le_bytes(
            self.items.len() as u32,
        ) + items_encoding(self.items)
    }

    /// The document does not outgrow the reserved space.
    pub open spec fn fits(self) -> bool {
        self.document_len() <= SPACE
    }
}

/// A run of entries grows by the size of the entry put at its end.
pub proof fn lemma_items_len_push(items: Seq<ItemView>, item: ItemView)
    ensures
        items_len(items.push(item)) == items_len(items) + item.encoded_len(),
{
    assert(items.push(item).drop_last() =~= items);
}

/// The first entries of a run take no more bytes than the whole run.
pub proof fn lemma_items_len_take(items: Seq<ItemView>, k: int)
    requires
        0 <= k <= items.len(),
    ensures
        items_len(items.take(k)) <= items_len(items),
    decreases items.len(),
{
    if k == items.len() {
        assert(items.take(k) =~= items);
    } else {
        assert(items.drop_last().take(k) =~= items.take(k));
        lemma_items_len_take(items.drop_last(), k);
    }
}

/// The size of a run of entries depends on the links alone.
pub proof fn lemma_items_len_links(a: Seq<ItemView>, b: Seq<ItemView>)
    requires
        a.len() == b.len(),
        forall|i: int| 0 <= i < a.len() ==> a[i].link == b[i].link,
    ensures
        items_len(a) == items_len(b),
    decreases a.len(),
{
    if a.len() > 0 {
        lemma_items_len_links(a.drop_last(), b.drop_last());
    }
}

/// Every entry takes at least its fixed part, so the size of a run bounds
/// the number of its entries.
pub proof fn lemma_items_len_lower_bound(items: Seq<ItemView>)
    ensures
        items.len() * ITEM_OVERHEAD <= items_len(items),
    decreases items.len(),
{
    if items.len() > 0 {
        lemma_items_len_lower_bound(items.drop_last());
        assert(items.len() * ITEM_OVERHEAD == items.drop_last().len() * ITEM_OVERHEAD
            + ITEM_OVERHEAD) by (nonlinear_arith)
            requires
                items.len() == items.drop_last().len() + 1,
        ;
    }
}

/// A run of entries is stored as the run before its last entry, then that
/// entry.
pub proof fn lemma_items_encoding_push(items: Seq<ItemView>, item: ItemView)
    ensures
        items_encoding(items.push(item)) == items_encoding(items) + item.encoding(),
{
    assert(items.push(item).drop_last() =~= items);
}

/// An entry is stored in as many bytes as its size says.
pub proof fn lemma_item_encoding_len(item: ItemView)
    ensures
        item.encoding().len() == item.encoded_len(),
{
    lemma_auto_spec_u32_to_from_le_bytes();
    lemma_auto_spec_u64_to_from_le_bytes();
}

/// A run of entries is stored in as many bytes as its size says.
pub proof fn lemma_items_encoding_len(items: Seq<ItemView>)
    ensures
        items_encoding(items).len() == items_len(items),
    decreases items.len(),
{
    if items.len() > 0 {
        lemma_items_encoding_len(items.drop_last());
        lemma_item_encoding_len(items.last());
    }
}

/// The stored registry and the host's tag together take as many bytes as the
/// document's size says.
pub proof fn lemma_encoding_len(r: RegistryView)
    ensures
        DISCRIMINATOR_LEN + r.encoding().len() == r.document_len(),
{
    lemma_auto_spec_u32_to_from_le_bytes();
    lemma_auto_spec_u64_to_from_le_bytes();
    lemma_items_encoding_len(r.items);
}

/// Puts the bytes of `src` at the end of `out`.
fn append_bytes(out: &mut Vec<u8>, src: &[u8])
    ensures
        final(out)@ == old(out)@ + src@,
{
    let mut i: usize = 0;
    while i < src.len()
        invariant
            i <= src.len(),
            out@ == old(out)@ + src@.take(i as int),
        decreases src.len() - i,
    {
        out.push(src[i]);
        assert(src@.take(i + 1) =~= src@.take(i as int).push(src@[i as int]));
        i += 1;
    }
    assert(src@.take(i as int) =~= src@);
}

/// Puts `item` as it is stored at the end of `out`.
fn append_item(out: &mut Vec<u8>, item: &ItemStruct)
    requires
        item@.link_bytes().len() <= u32::MAX,
    ensures
        final(out)@ == old(out)@ + item@.encoding(),
{
    let link = item.gif_link.as_str().as_bytes();
    let mut prefix = u32_to_le_bytes(link.len() as u32);
    let mut votes = u64_to_le_bytes(
        #[verifier::truncate]
        (item.votes as u64),
    );
    out.append(&mut prefix);
    append_bytes(out, link);
    append_bytes(out, array_as_slice(&item.user_address));
    out.append(&mut votes);
    assert(out@ =~= old(out)@ + item@.encoding());
}

impl BaseAccount {
    /// Bytes of the reserved space that the document leaves free, or `None`
    /// where the document is larger than the space.
    pub fn space_left(&self) -> (left: Option<usize>)
        ensures
            match left {
                Some(n) => self@.fits() && n == SPACE - self@.document_len(),
                None => !self@.fits(),
            },
    {
        let mut used: usize = EMPTY_LEN;
        let mut i: usize = 0;
        while i < self.gif_list.len()
            invariant
                i <= self.gif_list.len(),
                used == EMPTY_LEN + items_len(self@.items.take(i as int)),
                used <= SPACE,
            decreases self.gif_list.len() - i,
        {
            let n = self.gif_list[i].gif_link.as_str().as_bytes().len();
            proof {
                let items = self@.items;
                assert(items.take(i + 1) =~= items.take(i as int).push(items[i as int]));
                lemma_items_len_push(items.take(i as int), items[i as int]);
                lemma_items_len_take(items, i + 1);
            }
            if n > SPACE - used || SPACE - used - n < ITEM_OVERHEAD {
                return None;
            }
            used = used + n + ITEM_OVERHEAD;
            i += 1;
        }
        proof {
            assert(self@.items.take(i as int) =~= self@.items);
        }
        Some(SPACE - used)
    }

    /// The registry as it is stored behind the host's tag, or `None` where
    /// the document is larger than the space reserved for it.
    pub fn to_bytes(&self) -> (bytes: Option<Vec<u8>>)
        ensures
            match bytes {
                Some(b) => {
                    &&& self@.fits()
                    &&& b@ == self@.encoding()
                    &&& DISCRIMINATOR_LEN + b@.len() == self@.document_len()
                },
                None => !self@.fits(),
            },
    {
        if self.space_left().is_none() {
            return None;
        }
        let ghost items = self@.items;
        proof {
            lemma_items_len_lower_bound(items);
            lemma_encoding_len(self@);
        }
        let mut out = u64_to_le_bytes(self.total_gifs);
        let mut count = u32_to_le_bytes(self.gif_list.len() as u32);
        out.append(&mut count);
        let ghost head = out@;
        let mut i: usize = 0;
        while i < self.gif_list.len()
            invariant
                i <= self.gif_list.len(),
                items == self@.items,
                items_len(items) <= SPACE,
                out@ == head + items_encoding(items.take(i as int)),
            decreases self.gif_list.len() - i,
        {
            proof {
                assert(items.take(i + 1) =~= items.take(i as int).push(items[i as int]));
                lemma_items_encoding_push(items.take(i as int), items[i as int]);
                lemma_items_len_push(items.take(i as int), items[i as int]);
                lemma_items_len_take(items, i + 1);
            }
            append_item(&mut out, &self.gif_list[i]);
            assert(out@ =~= head + items_encoding(items.take(i + 1)));
            i += 1;
        }
        assert(items.take(i as int) =~= items);
        Some(out)
    }
}

} // verus!
