//! Attach an Attributes plugin to the collection to track its staked count.
use vstd::prelude::*;

use crate::instructions::{staked_attribute, staked_attribute_text};
use crate::mpl_core::{
    add_collection_attributes, add_collection_attributes_instruction, seeds_view, CoreCall,
    CoreCallView,
};
use crate::state::{Pubkey, StakeConfig};

verus! {

/// Adds an Attributes plugin to the managed collection, seeded with a `staked`
/// counter set to zero and owned by the config PDA so the program can keep it
/// in sync as assets are staked and unstaked.
#[derive(Clone, Copy, Debug)]
pub struct InitializeCollection {
    /// Who pays for the plugin.
    pub payer: Pubkey,
    /// The config, tied to the collection.
    pub config: StakeConfig,
    /// The address of the config, which becomes the plugin's authority.
    pub config_key: Pubkey,
    /// The Core collection.
    pub collection: Pubkey,
    /// The current update authority of the collection, who signs.
    pub update_authority: Pubkey,
    /// The Core program.
    pub mpl_core_program: Pubkey,
    /// The system program.
    pub system_program: Pubkey,
}

/// The call that adds the plugin: a `staked` attribute of `0`, under the
/// config's authority, signed by the update authority alone.
pub open spec fn initialize_collection_call(ctx: InitializeCollection) -> CoreCallView {
    CoreCallView {
        instruction: add_collection_attributes_instruction(
            ctx.collection,
            ctx.payer,
            ctx.update_authority,
            ctx.system_program,
            staked_attribute_text(0),
            ctx.config_key,
        ),
        signer_seeds: seq![],
    }
}

/// The call to the Core program that attaches the plugin.
pub fn handler(ctx: &InitializeCollection) -> (call: CoreCall)
    ensures
        call@ == initialize_collection_call(*ctx),
{
    let instruction = add_collection_attributes(
        ctx.collection,
        ctx.payer,
        ctx.update_authority,
        ctx.system_program,
        staked_attribute(0),
        ctx.config_key,
    );
    let no_seeds: Vec<Vec<u8>> = Vec::new();
    assert(seeds_view(no_seeds@) =~= Seq::<Seq<u8>>::empty());
    CoreCall { instruction, signer_seeds: no_seeds }
}

} // verus!
