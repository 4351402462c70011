use anchor_lang::prelude::borsh;
use nft_staking::mpl_core::{
    add_collection_attributes, freeze_asset, mpl_core_id, remove_freeze, serialize_optional_authority,
    set_frozen, update_collection_attributes, AccountMeta, Attribute, Attributes, FreezeDelegate,
    Plugin, PluginAuthority, PluginType,
};
use nft_staking::state::Pubkey;

fn key(b: u8) -> Pubkey {
    Pubkey { bytes: [b; 32] }
}

fn attr(k: &str, v: &str) -> Attribute {
    Attribute { key: k.to_string(), value: v.to_string() }
}

fn encode_plugin(p: &Plugin) -> Vec<u8> {
    let mut out = Vec::new();
    p.serialize(&mut out);
    out
}

#[test]
fn plugin_variants_take_their_borsh_index() {
    assert_eq!(encode_plugin(&Plugin::Royalties), vec![0]);
    assert_eq!(encode_plugin(&Plugin::FreezeDelegate(FreezeDelegate { frozen: true })), vec![1, 1]);
    assert_eq!(encode_plugin(&Plugin::FreezeDelegate(FreezeDelegate { frozen: false })), vec![1, 0]);
    assert_eq!(encode_plugin(&Plugin::BurnDelegate), vec![2]);
    assert_eq!(encode_plugin(&Plugin::TransferDelegate), vec![3]);
    assert_eq!(encode_plugin(&Plugin::UpdateDelegate), vec![4]);
    assert_eq!(encode_plugin(&Plugin::PermanentFreezeDelegate), vec![5]);
}

#[test]
fn attributes_plugin_matches_borsh() {
    let list = vec![attr("staked", "12"), attr("né", "")];
    let ours = encode_plugin(&Plugin::Attributes(Attributes { attribute_list: list }));
    let expected = borsh::to_vec(&(
        6u8,
        vec![("staked".to_string(), "12".to_string()), ("né".to_string(), String::new())],
    ))
    .unwrap();
    assert_eq!(ours, expected);
    assert_eq!(&ours[..5], &[6, 2, 0, 0, 0]);
    assert_eq!(&ours[5..9], &[6, 0, 0, 0]);
}

#[test]
fn empty_attribute_list() {
    let ours = encode_plugin(&Plugin::Attributes(Attributes { attribute_list: vec![] }));
    assert_eq!(ours, vec![6, 0, 0, 0, 0]);
}

#[test]
fn plugin_type_and_authority_encoding() {
    let mut out = Vec::new();
    PluginType::Royalties.serialize(&mut out);
    PluginType::FreezeDelegate.serialize(&mut out);
    assert_eq!(out, vec![0, 1]);

    let mut out = Vec::new();
    PluginAuthority::NoAuthority.serialize(&mut out);
    PluginAuthority::Owner.serialize(&mut out);
    PluginAuthority::UpdateAuthority.serialize(&mut out);
    assert_eq!(out, vec![0, 1, 2]);

    let mut out = Vec::new();
    serialize_optional_authority(&Some(PluginAuthority::Address { address: key(9) }), &mut out);
    let expected = borsh::to_vec(&Some((3u8, anchor_lang::prelude::Pubkey::new_from_array([9; 32]))))
        .unwrap();
    assert_eq!(out, expected);

    let mut out = Vec::new();
    serialize_optional_authority(&None, &mut out);
    assert_eq!(out, vec![0]);
}

fn asset_metas(asset: u8, collection: u8, payer: u8, authority: u8, system: u8) -> Vec<AccountMeta> {
    vec![
        AccountMeta { pubkey: key(asset), is_signer: false, is_writable: true },
        AccountMeta { pubkey: key(collection), is_signer: false, is_writable: true },
        AccountMeta { pubkey: key(payer), is_signer: true, is_writable: true },
        AccountMeta { pubkey: key(authority), is_signer: true, is_writable: false },
        AccountMeta { pubkey: key(system), is_signer: false, is_writable: false },
        AccountMeta { pubkey: mpl_core_id(), is_signer: false, is_writable: false },
    ]
}

#[test]
fn freeze_asset_instruction() {
    let ix = freeze_asset(key(1), key(2), key(3), key(4), key(5), key(6));
    assert_eq!(ix.program_id, mpl_core_id());
    assert_eq!(ix.accounts, asset_metas(1, 2, 3, 4, 5));
    let mut data = vec![2, 1, 1, 1, 3];
    data.extend_from_slice(&[6; 32]);
    assert_eq!(ix.data, data);
}

#[test]
fn set_frozen_instruction() {
    let ix = set_frozen(key(1), key(2), key(3), key(4), key(5), false);
    assert_eq!(ix.program_id, mpl_core_id());
    assert_eq!(ix.accounts, asset_metas(1, 2, 3, 4, 5));
    assert_eq!(ix.data, vec![6, 1, 0]);
    let ix = set_frozen(key(1), key(2), key(3), key(4), key(5), true);
    assert_eq!(ix.data, vec![6, 1, 1]);
}

#[test]
fn remove_freeze_instruction() {
    let ix = remove_freeze(key(1), key(2), key(3), key(4), key(5));
    assert_eq!(ix.program_id, mpl_core_id());
    assert_eq!(ix.accounts, asset_metas(1, 2, 3, 4, 5));
    assert_eq!(ix.data, vec![4, 1]);
}

fn collection_metas(collection: u8, payer: u8, authority: u8, system: u8) -> Vec<AccountMeta> {
    vec![
        AccountMeta { pubkey: key(collection), is_signer: false, is_writable: true },
        AccountMeta { pubkey: key(payer), is_signer: true, is_writable: true },
        AccountMeta { pubkey: key(authority), is_signer: true, is_writable: false },
        AccountMeta { pubkey: key(system), is_signer: false, is_writable: false },
        AccountMeta { pubkey: mpl_core_id(), is_signer: false, is_writable: false },
    ]
}

#[test]
fn add_collection_attributes_instruction() {
    let ix = add_collection_attributes(key(2), key(3), key(4), key(5), vec![attr("staked", "0")], key(7));
    assert_eq!(ix.program_id, mpl_core_id());
    assert_eq!(ix.accounts, collection_metas(2, 3, 4, 5));
    let mut data = vec![3, 6, 1, 0, 0, 0, 6, 0, 0, 0];
    data.extend_from_slice(b"staked");
    data.extend_from_slice(&[1, 0, 0, 0]);
    data.extend_from_slice(b"0");
    data.extend_from_slice(&[1, 3]);
    data.extend_from_slice(&[7; 32]);
    assert_eq!(ix.data, data);
}

#[test]
fn update_collection_attributes_instruction() {
    let ix = update_collection_attributes(key(2), key(3), key(4), key(5), vec![attr("staked", "42")]);
    assert_eq!(ix.program_id, mpl_core_id());
    assert_eq!(ix.accounts, collection_metas(2, 3, 4, 5));
    let mut data = vec![7, 6, 1, 0, 0, 0, 6, 0, 0, 0];
    data.extend_from_slice(b"staked");
    data.extend_from_slice(&[2, 0, 0, 0]);
    data.extend_from_slice(b"42");
    assert_eq!(ix.data, data);
}

#[test]
fn account_meta_constructors() {
    assert_eq!(AccountMeta::new(key(1), true), AccountMeta { pubkey: key(1), is_signer: true, is_writable: true });
    assert_eq!(
        AccountMeta::new_readonly(key(1), false),
        AccountMeta { pubkey: key(1), is_signer: false, is_writable: false }
    );
}

#[test]
fn core_program_id_is_the_base58_address() {
    let expected = anchor_lang::prelude::Pubkey::from_str_const("CoREENxT6tW1HoK8ypY1SxRMZTcVPm7R94rH4PZNhX7d");
    assert_eq!(mpl_core_id().bytes, expected.to_bytes());
    assert_eq!(nft_staking::mpl_core::MPL_CORE_ID_BYTES, expected.to_bytes());
}
