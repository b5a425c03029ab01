use anchor_lang::prelude::Pubkey;
use anchor_lang::AnchorSerialize;
use postgif::layout::{
    ADDRESS_LEN, COUNT_LEN, DISCRIMINATOR_LEN, EMPTY_LEN, ITEM_OVERHEAD, PREFIX_LEN, SPACE,
    VOTES_LEN,
};
use postgif::laws::MAX_ITEMS;
use postgif::{BaseAccount, ItemStruct};

fn entry(link: &str, fill: u8, votes: i64) -> ItemStruct {
    ItemStruct { gif_link: link.to_string(), user_address: [fill; 32], votes }
}

#[test]
fn sizes_add_up() {
    assert_eq!(SPACE, 9000);
    assert_eq!(DISCRIMINATOR_LEN, 8);
    assert_eq!(EMPTY_LEN, DISCRIMINATOR_LEN + COUNT_LEN + PREFIX_LEN);
    assert_eq!(ITEM_OVERHEAD, PREFIX_LEN + ADDRESS_LEN + VOTES_LEN);
    assert_eq!(MAX_ITEMS, (SPACE - EMPTY_LEN) / ITEM_OVERHEAD);
}

#[test]
fn empty_registry_is_stored_as_two_zero_counts() {
    let account = BaseAccount { total_gifs: 0, gif_list: Vec::new() };
    assert_eq!(account.to_bytes(), Some(vec![0u8; 12]));
    assert_eq!(account.space_left(), Some(8980));
}

#[test]
fn one_entry_is_stored_field_by_field() {
    let account = BaseAccount { total_gifs: 1, gif_list: vec![entry("ab", 7, 258)] };
    let mut expected: Vec<u8> = Vec::new();
    expected.extend_from_slice(&[1, 0, 0, 0, 0, 0, 0, 0]);
    expected.extend_from_slice(&[1, 0, 0, 0]);
    expected.extend_from_slice(&[2, 0, 0, 0]);
    expected.extend_from_slice(&[0x61, 0x62]);
    expected.extend_from_slice(&[7u8; 32]);
    expected.extend_from_slice(&[2, 1, 0, 0, 0, 0, 0, 0]);
    assert_eq!(account.to_bytes(), Some(expected));
    assert_eq!(account.space_left(), Some(9000 - 8 - 12 - 46));
}

#[test]
fn link_is_stored_as_utf8_with_its_byte_length() {
    let account = BaseAccount { total_gifs: 1, gif_list: vec![entry("\u{e9}\u{20ac}", 0, 0)] };
    let bytes = account.to_bytes().unwrap();
    assert_eq!(&bytes[12..16], &[5, 0, 0, 0]);
    assert_eq!(&bytes[16..21], &[0xc3, 0xa9, 0xe2, 0x82, 0xac]);
    assert_eq!(bytes.len(), 12 + 44 + 5);
}

#[test]
fn tally_below_zero_is_stored_in_twos_complement() {
    let account = BaseAccount { total_gifs: 1, gif_list: vec![entry("", 0, -2)] };
    let bytes = account.to_bytes().unwrap();
    assert_eq!(&bytes[48..56], &[0xfe, 0xff, 0xff, 0xff, 0xff, 0xff, 0xff, 0xff]);

    let account = BaseAccount { total_gifs: 1, gif_list: vec![entry("", 0, i64::MIN)] };
    let bytes = account.to_bytes().unwrap();
    assert_eq!(&bytes[48..56], &[0, 0, 0, 0, 0, 0, 0, 0x80]);
}

#[test]
fn total_count_is_stored_as_it_is() {
    let account = BaseAccount { total_gifs: 0x0102_0304_0506_0708, gif_list: Vec::new() };
    assert_eq!(account.to_bytes(), Some(vec![8, 7, 6, 5, 4, 3, 2, 1, 0, 0, 0, 0]));
}

#[test]
fn entries_are_stored_in_order() {
    let account = BaseAccount {
        total_gifs: 3,
        gif_list: vec![entry("a", 1, 1), entry("bc", 2, 2), entry("", 3, 3)],
    };
    let bytes = account.to_bytes().unwrap();
    assert_eq!(bytes.len(), 12 + 45 + 46 + 44);
    assert_eq!(&bytes[8..12], &[3, 0, 0, 0]);
    assert_eq!(bytes[16], 0x61);
    assert_eq!(bytes[17], 1);
    assert_eq!(&bytes[12 + 45..12 + 45 + 4], &[2, 0, 0, 0]);
    assert_eq!(&bytes[12 + 45 + 4..12 + 45 + 6], &[0x62, 0x63]);
    assert_eq!(bytes[12 + 45 + 46 + 4], 3);
    assert_eq!(bytes[bytes.len() - 8], 3);
}

#[test]
fn stored_length_and_space_left_make_up_the_space() {
    let account = BaseAccount {
        total_gifs: 2,
        gif_list: vec![entry("http://a.gif", 1, 0), entry("http://bb.gif", 2, 5)],
    };
    let stored = account.to_bytes().unwrap().len();
    assert_eq!(stored, 12 + 56 + 57);
    assert_eq!(account.space_left(), Some(SPACE - DISCRIMINATOR_LEN - stored));
}

#[test]
fn document_that_fills_the_space_is_stored() {
    let account = BaseAccount { total_gifs: 1, gif_list: vec![entry(&"x".repeat(8936), 9, 0)] };
    assert_eq!(account.space_left(), Some(0));
    assert_eq!(account.to_bytes().unwrap().len(), 8992);
}

#[test]
fn document_over_the_space_is_not_stored() {
    let account = BaseAccount { total_gifs: 1, gif_list: vec![entry(&"x".repeat(8937), 9, 0)] };
    assert_eq!(account.space_left(), None);
    assert_eq!(account.to_bytes(), None);

    let account = BaseAccount {
        total_gifs: 2,
        gif_list: vec![entry(&"x".repeat(5000), 9, 0), entry(&"y".repeat(5000), 9, 0)],
    };
    assert_eq!(account.space_left(), None);
    assert_eq!(account.to_bytes(), None);
}

#[test]
fn stored_bytes_are_those_of_the_host_serializer() {
    let account = BaseAccount {
        total_gifs: 2,
        gif_list: vec![entry("http://a.gif", 1, 0), entry("\u{e9}", 2, -7)],
    };
    let fields: (u64, Vec<(String, Pubkey, i64)>) = (
        account.total_gifs,
        account
            .gif_list
            .iter()
            .map(|item| {
                (item.gif_link.clone(), Pubkey::new_from_array(item.user_address), item.votes)
            })
            .collect(),
    );
    assert_eq!(account.to_bytes(), Some(fields.try_to_vec().unwrap()));
}

#[test]
fn position_names_an_entry_or_nothing() {
    let account = BaseAccount { total_gifs: 2, gif_list: vec![entry("a", 1, 0), entry("b", 2, 0)] };
    assert_eq!(account.position(0), Some(0));
    assert_eq!(account.position(1), Some(1));
    assert_eq!(account.position(2), None);
    assert_eq!(account.position(-1), None);
    assert_eq!(account.position(i64::MIN), None);
    assert_eq!(account.position(i64::MAX), None);
    let empty = BaseAccount { total_gifs: 0, gif_list: Vec::new() };
    assert_eq!(empty.position(0), None);
}

#[test]
fn is_counted_compares_the_count_with_the_list() {
    assert!(BaseAccount { total_gifs: 0, gif_list: Vec::new() }.is_counted());
    assert!(BaseAccount { total_gifs: 1, gif_list: vec![entry("a", 1, 0)] }.is_counted());
    assert!(!BaseAccount { total_gifs: 2, gif_list: vec![entry("a", 1, 0)] }.is_counted());
    assert!(!BaseAccount { total_gifs: 0, gif_list: vec![entry("a", 1, 0)] }.is_counted());
    assert!(!BaseAccount { total_gifs: u64::MAX, gif_list: Vec::new() }.is_counted());
}
