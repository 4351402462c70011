//! What each instruction asks of the Core program, stated account by account
//! and byte by byte from the instruction's own accounts: which program is
//! called, which accounts it gets and how, what data it gets, and which
//! program address signs.
use vstd::prelude::*;
use vstd::utf8::encode_utf8;

use crate::instructions::decimal;
use crate::instructions::initialize_collection::{initialize_collection_call, InitializeCollection};
use crate::instructions::stake::{stake_freeze_call, stake_sync_call, Stake};
use crate::instructions::unstake::{unstake_release_calls, unstake_sync_call, Unstake};
use crate::mpl_core::{
    attribute_encoding, attribute_seq_encoding, attributes_plugin_encoding, core_program_id,
    string_encoding, u32_le, AccountMeta, AttributeText,
};
use crate::state::Pubkey;

verus! {

/// An account of an instruction.
pub open spec fn meta(pubkey: Pubkey, is_signer: bool, is_writable: bool) -> AccountMeta {
    AccountMeta { pubkey, is_signer, is_writable }
}

/// The Core `Attributes` plugin holding the single attribute `staked = count`,
/// after the instruction's discriminator `ix`.
pub open spec fn staked_plugin_data(ix: u8, count: nat) -> Seq<u8> {
    seq![ix, 6u8] + u32_le(1) + string_encoding("staked"@) + string_encoding(decimal(count))
}

/// The `Attributes` plugin of a single attribute: its tag, a length of one,
/// then the attribute.
pub proof fn lemma_single_attribute_plugin(a: AttributeText)
    ensures
        attributes_plugin_encoding(seq![a]) == seq![6u8] + u32_le(1) + attribute_encoding(a),
{
    assert(seq![a].drop_last() =~= Seq::<AttributeText>::empty());
    assert(seq![a].last() == a);
    assert(attribute_seq_encoding(Seq::<AttributeText>::empty()) =~= Seq::<u8>::empty());
    assert(attribute_seq_encoding(seq![a]) == attribute_seq_encoding(seq![a].drop_last())
        + attribute_encoding(seq![a].last()));
    assert(attribute_seq_encoding(seq![a]) =~= attribute_encoding(a));
    assert(attributes_plugin_encoding(seq![a]) =~= seq![6u8] + u32_le(1) + attribute_encoding(a));
}

/// A stake freezes the asset named by the instruction, in the instruction's
/// collection, paid and signed by the owner, and hands thaw rights to the
/// stake record's address; no program address signs.
pub proof fn stake_freezes_the_asset_for_the_stake_record(ctx: Stake)
    ensures
        stake_freeze_call(ctx).instruction.program_id == core_program_id(),
        stake_freeze_call(ctx).instruction.accounts == seq![
            meta(ctx.asset, false, true),
            meta(ctx.collection, false, true),
            meta(ctx.owner, true, true),
            meta(ctx.owner, true, false),
            meta(ctx.system_program, false, false),
            meta(core_program_id(), false, false),
        ],
        stake_freeze_call(ctx).instruction.data == seq![2u8, 1u8, 1u8, 1u8, 3u8]
            + ctx.stake_account_key.bytes@,
        stake_freeze_call(ctx).signer_seeds == Seq::<Seq<u8>>::empty(),
{
    assert(stake_freeze_call(ctx).instruction.data =~= seq![2u8, 1u8, 1u8, 1u8, 3u8]
        + ctx.stake_account_key.bytes@);
}

/// After a stake, the staked count `count` is written into the instruction's
/// collection, paid by the owner, under the config's authority and signed by
/// the config's address.
pub proof fn stake_writes_the_count_into_the_collection(ctx: Stake, count: u32)
    ensures
        stake_sync_call(ctx, count).instruction.program_id == core_program_id(),
        stake_sync_call(ctx, count).instruction.accounts == seq![
            meta(ctx.collection, false, true),
            meta(ctx.owner, true, true),
            meta(ctx.config_key, true, false),
            meta(ctx.system_program, false, false),
            meta(core_program_id(), false, false),
        ],
        stake_sync_call(ctx, count).instruction.data == staked_plugin_data(7, count as nat),
        stake_sync_call(ctx, count).signer_seeds == seq![
            encode_utf8("config"@),
            seq![ctx.config.bump],
        ],
{
    lemma_single_attribute_plugin(("staked"@, decimal(count as nat)));
    assert(stake_sync_call(ctx, count).instruction.data =~= staked_plugin_data(7, count as nat));
}

/// An unstake first thaws the instruction's asset, signed by the stake
/// record's address (seeds `stake`, asset, config, bump), then has the owner
/// remove the freeze plugin.
pub proof fn unstake_thaws_then_removes_the_freeze(ctx: Unstake)
    ensures
        unstake_release_calls(ctx).len() == 2,
        unstake_release_calls(ctx)[0].instruction.program_id == core_program_id(),
        unstake_release_calls(ctx)[0].instruction.accounts == seq![
            meta(ctx.asset, false, true),
            meta(ctx.collection, false, true),
            meta(ctx.owner, true, true),
            meta(ctx.stake_account_key, true, false),
            meta(ctx.system_program, false, false),
            meta(core_program_id(), false, false),
        ],
        unstake_release_calls(ctx)[0].instruction.data == seq![6u8, 1u8, 0u8],
        unstake_release_calls(ctx)[0].signer_seeds == seq![
            encode_utf8("stake"@),
            ctx.asset.bytes@,
            ctx.config_key.bytes@,
            seq![ctx.stake_account.bump],
        ],
        unstake_release_calls(ctx)[1].instruction.program_id == core_program_id(),
        unstake_release_calls(ctx)[1].instruction.accounts == seq![
            meta(ctx.asset, false, true),
            meta(ctx.collection, false, true),
            meta(ctx.owner, true, true),
            meta(ctx.owner, true, false),
            meta(ctx.system_program, false, false),
            meta(core_program_id(), false, false),
        ],
        unstake_release_calls(ctx)[1].instruction.data == seq![4u8, 1u8],
        unstake_release_calls(ctx)[1].signer_seeds == Seq::<Seq<u8>>::empty(),
{
    assert(unstake_release_calls(ctx)[0].instruction.data =~= seq![6u8, 1u8, 0u8]);
}

/// After an unstake, the staked count `count` is written into the
/// instruction's collection, paid by the owner, under the config's authority
/// and signed by the config's address.
pub proof fn unstake_writes_the_count_into_the_collection(ctx: Unstake, count: u32)
    ensures
        unstake_sync_call(ctx, count).instruction.program_id == core_program_id(),
        unstake_sync_call(ctx, count).instruction.accounts == seq![
            meta(ctx.collection, false, true),
            meta(ctx.owner, true, true),
            meta(ctx.config_key, true, false),
            meta(ctx.system_program, false, false),
            meta(core_program_id(), false, false),
        ],
        unstake_sync_call(ctx, count).instruction.data == staked_plugin_data(7, count as nat),
        unstake_sync_call(ctx, count).signer_seeds == seq![
            encode_utf8("config"@),
            seq![ctx.config.bump],
        ],
{
    lemma_single_attribute_plugin(("staked"@, decimal(count as nat)));
    assert(unstake_sync_call(ctx, count).instruction.data =~= staked_plugin_data(
        7,
        count as nat,
    ));
}

/// The collection's plugin is added to the instruction's collection, paid by
/// the payer, allowed by the update authority's signature, with a `staked`
/// count of zero and the config's address as the plugin's authority.
pub proof fn initialize_collection_adds_a_zero_count(ctx: InitializeCollection)
    ensures
        initialize_collection_call(ctx).instruction.program_id == core_program_id(),
        initialize_collection_call(ctx).instruction.accounts == seq![
            meta(ctx.collection, false, true),
            meta(ctx.payer, true, true),
            meta(ctx.update_authority, true, false),
            meta(ctx.system_program, false, false),
            meta(core_program_id(), false, false),
        ],
        initialize_collection_call(ctx).instruction.data == staked_plugin_data(3, 0) + seq![
            1u8,
            3u8,
        ] + ctx.config_key.bytes@,
        initialize_collection_call(ctx).signer_seeds == Seq::<Seq<u8>>::empty(),
{
    lemma_single_attribute_plugin(("staked"@, decimal(0)));
    assert(initialize_collection_call(ctx).instruction.data =~= staked_plugin_data(3, 0) + seq![
        1u8,
        3u8,
    ] + ctx.config_key.bytes@);
}

} // verus!
