//! The instructions that the staking program sends to the Metaplex Core
//! program, and the borsh byte layout of their data.
//!
//! Borsh writes an enum as its variant index (one byte) followed by the
//! variant's fields, a `bool` as one byte, an `Option` as a tag byte followed
//! by the value when present, a string or a vector as its length (a
//! little-endian `u32`) followed by its elements, and an address as its
//! 32 bytes.
use vstd::prelude::*;
use vstd::utf8::encode_utf8;

use crate::state::Pubkey;

verus! {

/// The bytes of the on-chain address of the Metaplex Core program
/// (`CoREENxT6tW1HoK8ypY1SxRMZTcVPm7R94rH4PZNhX7d` in base58).
pub const MPL_CORE_ID_BYTES: [u8; 32] = [
    175, 84, 171, 16, 189, 151, 165, 66, 160, 158, 247, 179, 152, 137, 221, 12, 211, 148, 164, 204,
    233, 223, 166, 205, 201, 126, 190, 45, 35, 91, 167, 72,
];

/// On-chain address of the Metaplex Core program.
pub open spec fn core_program_id() -> Pubkey {
    Pubkey { bytes: MPL_CORE_ID_BYTES }
}

/// On-chain address of the Metaplex Core program.
pub fn mpl_core_id() -> (id: Pubkey)
    ensures
        id == core_program_id(),
{
    Pubkey { bytes: MPL_CORE_ID_BYTES }
}

// Instruction discriminators (first byte of the instruction data).
pub const IX_ADD_PLUGIN: u8 = 2;

pub const IX_ADD_COLLECTION_PLUGIN: u8 = 3;

pub const IX_REMOVE_PLUGIN: u8 = 4;

pub const IX_UPDATE_PLUGIN: u8 = 6;

pub const IX_UPDATE_COLLECTION_PLUGIN: u8 = 7;

#[derive(Clone, Copy, Debug, PartialEq, Eq)]
pub struct FreezeDelegate {
    pub frozen: bool,
}

#[derive(Clone, Debug)]
pub struct Attribute {
    pub key: String,
    pub value: String,
}

#[derive(Clone, Debug)]
pub struct Attributes {
    pub attribute_list: Vec<Attribute>,
}

/// Core `Plugin` enum. Only the variants we use carry data; the others exist so
/// the borsh discriminant of each variant matches the Core program.
#[derive(Clone, Debug)]
pub enum Plugin {
    Royalties,
    FreezeDelegate(FreezeDelegate),
    BurnDelegate,
    TransferDelegate,
    UpdateDelegate,
    PermanentFreezeDelegate,
    Attributes(Attributes),
}

/// Core `PluginType` enum, used to identify a plugin for removal.
#[derive(Clone, Copy, Debug, PartialEq, Eq)]
pub enum PluginType {
    Royalties,
    FreezeDelegate,
}

/// Authority that controls a plugin once it has been added.
#[derive(Clone, Copy, Debug, PartialEq, Eq)]
pub enum PluginAuthority {
    NoAuthority,
    Owner,
    UpdateAuthority,
    Address { address: Pubkey },
}

/// A key/value pair as text: the view of an [`Attribute`].
pub type AttributeText = (Seq<char>, Seq<char>);

impl View for Attribute {
    type V = AttributeText;

    open spec fn view(&self) -> AttributeText {
        (self.key@, self.value@)
    }
}

pub open spec fn attribute_list_view(list: Seq<Attribute>) -> Seq<AttributeText> {
    list.map_values(|a: Attribute| a@)
}

impl View for Attributes {
    type V = Seq<AttributeText>;

    open spec fn view(&self) -> Seq<AttributeText> {
        attribute_list_view(self.attribute_list@)
    }
}

/// The four little-endian bytes of `n`.
pub open spec fn u32_le(n: nat) -> Seq<u8> {
    seq![
        (n % 256) as u8,
        ((n / 256) % 256) as u8,
        ((n / 65536) % 256) as u8,
        ((n / 16777216) % 256) as u8,
    ]
}

/// The four bytes of `u32_le(n)` read back, least significant first, give `n`.
pub proof fn u32_le_reads_back(n: nat)
    requires
        n <= u32::MAX,
    ensures
        u32_le(n).len() == 4,
        u32_le(n)[0] + 256 * u32_le(n)[1] + 65536 * u32_le(n)[2] + 16777216 * u32_le(n)[3] == n,
{
    let b0 = n % 256;
    let b1 = (n / 256) % 256;
    let b2 = (n / 65536) % 256;
    let b3 = (n / 16777216) % 256;
    assert(b0 + 256 * b1 + 65536 * b2 + 16777216 * b3 == n) by (nonlinear_arith)
        requires
            n <= 4294967295,
            b0 == n % 256,
            b1 == (n / 256) % 256,
            b2 == (n / 65536) % 256,
            b3 == (n / 16777216) % 256,
    ;
}

/// A string: the length of its UTF-8 bytes, then the bytes.
pub open spec fn string_encoding(s: Seq<char>) -> Seq<u8> {
    u32_le(encode_utf8(s).len()) + encode_utf8(s)
}

/// A string whose UTF-8 length fits the `u32` length prefix.
pub open spec fn string_fits(s: Seq<char>) -> bool {
    encode_utf8(s).len() <= u32::MAX
}

pub open spec fn attribute_encoding(a: AttributeText) -> Seq<u8> {
    string_encoding(a.0) + string_encoding(a.1)
}

pub open spec fn attribute_fits(a: AttributeText) -> bool {
    string_fits(a.0) && string_fits(a.1)
}

/// The attributes one after the other, without the length prefix.
pub open spec fn attribute_seq_encoding(list: Seq<AttributeText>) -> Seq<u8>
    decreases list.len(),
{
    if list.len() == 0 {
        seq![]
    } else {
        attribute_seq_encoding(list.drop_last()) + attribute_encoding(list.last())
    }
}

/// A list of attributes: its length, then each attribute.
pub open spec fn attributes_encoding(list: Seq<AttributeText>) -> Seq<u8> {
    u32_le(list.len()) + attribute_seq_encoding(list)
}

pub open spec fn attributes_fit(list: Seq<AttributeText>) -> bool {
    &&& list.len() <= u32::MAX
    &&& forall|i: int| 0 <= i < list.len() ==> attribute_fits(#[trigger] list[i])
}

pub open spec fn bool_encoding(b: bool) -> Seq<u8> {
    if b {
        seq![1u8]
    } else {
        seq![0u8]
    }
}

/// The `Attributes` variant of [`Plugin`] holding `list`.
pub open spec fn attributes_plugin_encoding(list: Seq<AttributeText>) -> Seq<u8> {
    seq![6u8] + attributes_encoding(list)
}

/// The `FreezeDelegate` variant of [`Plugin`] with the given flag.
pub open spec fn freeze_plugin_encoding(frozen: bool) -> Seq<u8> {
    seq![1u8] + bool_encoding(frozen)
}

impl FreezeDelegate {
    pub open spec fn encoding(self) -> Seq<u8> {
        bool_encoding(self.frozen)
    }
}

impl Attributes {
    pub open spec fn encoding(self) -> Seq<u8> {
        attributes_encoding(self@)
    }

    pub open spec fn fits(self) -> bool {
        attributes_fit(self@)
    }
}

impl Plugin {
    pub open spec fn encoding(self) -> Seq<u8> {
        match self {
            Plugin::Royalties => seq![0u8],
            Plugin::FreezeDelegate(f) => freeze_plugin_encoding(f.frozen),
            Plugin::BurnDelegate => seq![2u8],
            Plugin::TransferDelegate => seq![3u8],
            Plugin::UpdateDelegate => seq![4u8],
            Plugin::PermanentFreezeDelegate => seq![5u8],
            Plugin::Attributes(a) => attributes_plugin_encoding(a@),
        }
    }

    /// Every length in the plugin fits its `u32` prefix.
    pub open spec fn fits(self) -> bool {
        match self {
            Plugin::Attributes(a) => a.fits(),
            _ => true,
        }
    }
}

impl PluginType {
    pub open spec fn encoding(self) -> Seq<u8> {
        match self {
            PluginType::Royalties => seq![0u8],
            PluginType::FreezeDelegate => seq![1u8],
        }
    }
}

impl PluginAuthority {
    pub open spec fn encoding(self) -> Seq<u8> {
        match self {
            PluginAuthority::NoAuthority => seq![0u8],
            PluginAuthority::Owner => seq![1u8],
            PluginAuthority::UpdateAuthority => seq![2u8],
            PluginAuthority::Address { address } => seq![3u8] + address.bytes@,
        }
    }
}

pub open spec fn optional_authority_encoding(a: Option<PluginAuthority>) -> Seq<u8> {
    match a {
        Option::None => seq![0u8],
        Option::Some(x) => seq![1u8] + x.encoding(),
    }
}

/// `Some(Address { address })`, the authority handed to a new plugin.
pub open spec fn address_authority_encoding(address: Pubkey) -> Seq<u8> {
    seq![1u8, 3u8] + address.bytes@
}

fn push_bytes(out: &mut Vec<u8>, bytes: &[u8])
    ensures
        final(out)@ == old(out)@ + bytes@,
{
    let n = bytes.len();
    let mut i: usize = 0;
    while i < n
        invariant
            n == bytes@.len(),
            i <= n,
            out@ == old(out)@ + bytes@.take(i as int),
        decreases n - i,
    {
        out.push(bytes[i]);
        i = i + 1;
        assert(bytes@.take(i as int) == bytes@.take(i - 1) + seq![bytes@[i - 1]]);
    }
    assert(bytes@.take(n as int) == bytes@);
}

fn write_u32_le(out: &mut Vec<u8>, n: u32)
    ensures
        final(out)@ == old(out)@ + u32_le(n as nat),
{
    out.push((n % 256) as u8);
    out.push(((n / 256) % 256) as u8);
    out.push(((n / 65536) % 256) as u8);
    out.push(((n / 16777216) % 256) as u8);
    assert(out@ == old(out)@ + u32_le(n as nat));
}

fn write_bool(out: &mut Vec<u8>, b: bool)
    ensures
        final(out)@ == old(out)@ + bool_encoding(b),
{
    if b {
        out.push(1u8);
    } else {
        out.push(0u8);
    }
}

fn write_string(out: &mut Vec<u8>, s: &String)
    requires
        string_fits(s@),
    ensures
        final(out)@ == old(out)@ + string_encoding(s@),
{
    let bytes = s.as_str().as_bytes_vec();
    write_u32_le(out, bytes.len() as u32);
    push_bytes(out, bytes.as_slice());
    assert(out@ == old(out)@ + string_encoding(s@));
}

fn write_pubkey(out: &mut Vec<u8>, key: &Pubkey)
    ensures
        final(out)@ == old(out)@ + key.bytes@,
{
    push_bytes(out, key.bytes.as_slice());
}

impl FreezeDelegate {
    pub fn serialize(&self, out: &mut Vec<u8>)
        ensures
            final(out)@ == old(out)@ + self.encoding(),
    {
        write_bool(out, self.frozen);
    }
}

impl Attribute {
    pub fn serialize(&self, out: &mut Vec<u8>)
        requires
            attribute_fits(self@),
        ensures
            final(out)@ == old(out)@ + attribute_encoding(self@),
    {
        write_string(out, &self.key);
        write_string(out, &self.value);
        assert(out@ == old(out)@ + attribute_encoding(self@));
    }
}

impl Attributes {
    pub fn serialize(&self, out: &mut Vec<u8>)
        requires
            self.fits(),
        ensures
            final(out)@ == old(out)@ + self.encoding(),
    {
        let n = self.attribute_list.len();
        write_u32_le(out, n as u32);
        let ghost start = out@;
        let mut i: usize = 0;
        while i < n
            invariant
                n == self.attribute_list@.len(),
                self.fits(),
                i <= n,
                start == old(out)@ + u32_le(n as nat),
                out@ == start + attribute_seq_encoding(self@.take(i as int)),
            decreases n - i,
        {
            assert(attribute_fits(self@[i as int]));
            self.attribute_list[i].serialize(out);
            i = i + 1;
            assert(self@.take(i as int).drop_last() == self@.take(i - 1));
        }
        assert(self@.take(n as int) == self@);
    }
}

impl Plugin {
    pub fn serialize(&self, out: &mut Vec<u8>)
        requires
            self.fits(),
        ensures
            final(out)@ == old(out)@ + self.encoding(),
    {
        match self {
            Plugin::Royalties => out.push(0u8),
            Plugin::FreezeDelegate(f) => {
                out.push(1u8);
                f.serialize(out);
            },
            Plugin::BurnDelegate => out.push(2u8),
            Plugin::TransferDelegate => out.push(3u8),
            Plugin::UpdateDelegate => out.push(4u8),
            Plugin::PermanentFreezeDelegate => out.push(5u8),
            Plugin::Attributes(a) => {
                out.push(6u8);
                a.serialize(out);
            },
        }
        assert(out@ == old(out)@ + self.encoding());
    }
}

impl PluginType {
    pub fn serialize(&self, out: &mut Vec<u8>)
        ensures
            final(out)@ == old(out)@ + self.encoding(),
    {
        match self {
            PluginType::Royalties => out.push(0u8),
            PluginType::FreezeDelegate => out.push(1u8),
        }
    }
}

impl PluginAuthority {
    pub fn serialize(&self, out: &mut Vec<u8>)
        ensures
            final(out)@ == old(out)@ + self.encoding(),
    {
        match self {
            PluginAuthority::NoAuthority => out.push(0u8),
            PluginAuthority::Owner => out.push(1u8),
            PluginAuthority::UpdateAuthority => out.push(2u8),
            PluginAuthority::Address { address } => {
                out.push(3u8);
                write_pubkey(out, address);
            },
        }
        assert(out@ == old(out)@ + self.encoding());
    }
}

/// Writes an optional plugin authority: a tag byte, then the authority.
pub fn serialize_optional_authority(authority: &Option<PluginAuthority>, out: &mut Vec<u8>)
    ensures
        final(out)@ == old(out)@ + optional_authority_encoding(*authority),
{
    match authority {
        Option::None => out.push(0u8),
        Option::Some(a) => {
            out.push(1u8);
            a.serialize(out);
        },
    }
    assert(out@ == old(out)@ + optional_authority_encoding(*authority));
}

/// One account of an instruction: its address and how the instruction uses it.
#[derive(Clone, Copy, Debug, PartialEq, Eq)]
pub struct AccountMeta {
    pub pubkey: Pubkey,
    pub is_signer: bool,
    pub is_writable: bool,
}

pub open spec fn writable_meta(pubkey: Pubkey, is_signer: bool) -> AccountMeta {
    AccountMeta { pubkey, is_signer, is_writable: true }
}

pub open spec fn readonly_meta(pubkey: Pubkey, is_signer: bool) -> AccountMeta {
    AccountMeta { pubkey, is_signer, is_writable: false }
}

impl AccountMeta {
    /// An account that the instruction writes.
    pub fn new(pubkey: Pubkey, is_signer: bool) -> (m: AccountMeta)
        ensures
            m == writable_meta(pubkey, is_signer),
    {
        AccountMeta { pubkey, is_signer, is_writable: true }
    }

    /// An account that the instruction only reads.
    pub fn new_readonly(pubkey: Pubkey, is_signer: bool) -> (m: AccountMeta)
        ensures
            m == readonly_meta(pubkey, is_signer),
    {
        AccountMeta { pubkey, is_signer, is_writable: false }
    }
}

/// An instruction for another program: which program, which accounts, which data.
#[derive(Clone, Debug)]
pub struct Instruction {
    pub program_id: Pubkey,
    pub accounts: Vec<AccountMeta>,
    pub data: Vec<u8>,
}

pub struct InstructionView {
    pub program_id: Pubkey,
    pub accounts: Seq<AccountMeta>,
    pub data: Seq<u8>,
}

impl View for Instruction {
    type V = InstructionView;

    open spec fn view(&self) -> InstructionView {
        InstructionView { program_id: self.program_id, accounts: self.accounts@, data: self.data@ }
    }
}

/// An instruction for the Core program together with the seeds of the program
/// address that signs it; no seeds means that no program address signs.
#[derive(Clone, Debug)]
pub struct CoreCall {
    pub instruction: Instruction,
    pub signer_seeds: Vec<Vec<u8>>,
}

pub struct CoreCallView {
    pub instruction: InstructionView,
    pub signer_seeds: Seq<Seq<u8>>,
}

pub open spec fn seeds_view(seeds: Seq<Vec<u8>>) -> Seq<Seq<u8>> {
    seeds.map_values(|s: Vec<u8>| s@)
}

impl View for CoreCall {
    type V = CoreCallView;

    open spec fn view(&self) -> CoreCallView {
        CoreCallView { instruction: self.instruction@, signer_seeds: seeds_view(self.signer_seeds@) }
    }
}

pub open spec fn calls_view(calls: Seq<CoreCall>) -> Seq<CoreCallView> {
    calls.map_values(|c: CoreCall| c@)
}

/// The accounts of a Core instruction on an asset, in the order Core reads them.
pub open spec fn asset_accounts(
    asset: Pubkey,
    collection: Pubkey,
    payer: Pubkey,
    authority: Pubkey,
    system_program: Pubkey,
) -> Seq<AccountMeta> {
    seq![
        writable_meta(asset, false),
        writable_meta(collection, false),
        writable_meta(payer, true),
        readonly_meta(authority, true),
        readonly_meta(system_program, false),
        readonly_meta(core_program_id(), false),
    ]
}

/// The accounts of a Core instruction on a collection, in the order Core reads them.
pub open spec fn collection_accounts(
    collection: Pubkey,
    payer: Pubkey,
    authority: Pubkey,
    system_program: Pubkey,
) -> Seq<AccountMeta> {
    seq![
        writable_meta(collection, false),
        writable_meta(payer, true),
        readonly_meta(authority, true),
        readonly_meta(system_program, false),
        readonly_meta(core_program_id(), false),
    ]
}

pub open spec fn freeze_asset_instruction(
    asset: Pubkey,
    collection: Pubkey,
    payer: Pubkey,
    authority: Pubkey,
    system_program: Pubkey,
    freeze_authority: Pubkey,
) -> InstructionView {
    InstructionView {
        program_id: core_program_id(),
        accounts: asset_accounts(asset, collection, payer, authority, system_program),
        data: seq![IX_ADD_PLUGIN] + freeze_plugin_encoding(true) + address_authority_encoding(
            freeze_authority,
        ),
    }
}

pub open spec fn set_frozen_instruction(
    asset: Pubkey,
    collection: Pubkey,
    payer: Pubkey,
    authority: Pubkey,
    system_program: Pubkey,
    frozen: bool,
) -> InstructionView {
    InstructionView {
        program_id: core_program_id(),
        accounts: asset_accounts(asset, collection, payer, authority, system_program),
        data: seq![IX_UPDATE_PLUGIN] + freeze_plugin_encoding(frozen),
    }
}

pub open spec fn remove_freeze_instruction(
    asset: Pubkey,
    collection: Pubkey,
    payer: Pubkey,
    authority: Pubkey,
    system_program: Pubkey,
) -> InstructionView {
    InstructionView {
        program_id: core_program_id(),
        accounts: asset_accounts(asset, collection, payer, authority, system_program),
        data: seq![IX_REMOVE_PLUGIN, 1u8],
    }
}

pub open spec fn add_collection_attributes_instruction(
    collection: Pubkey,
    payer: Pubkey,
    update_authority: Pubkey,
    system_program: Pubkey,
    attribute_list: Seq<AttributeText>,
    plugin_authority: Pubkey,
) -> InstructionView {
    InstructionView {
        program_id: core_program_id(),
        accounts: collection_accounts(
            collection,
            payer,
            update_authority,
            system_program,
        ),
        data: seq![IX_ADD_COLLECTION_PLUGIN] + attributes_plugin_encoding(attribute_list)
            + address_authority_encoding(plugin_authority),
    }
}

pub open spec fn update_collection_attributes_instruction(
    collection: Pubkey,
    payer: Pubkey,
    authority: Pubkey,
    system_program: Pubkey,
    attribute_list: Seq<AttributeText>,
) -> InstructionView {
    InstructionView {
        program_id: core_program_id(),
        accounts: collection_accounts(collection, payer, authority, system_program),
        data: seq![IX_UPDATE_COLLECTION_PLUGIN] + attributes_plugin_encoding(attribute_list),
    }
}

fn asset_account_metas(
    asset: Pubkey,
    collection: Pubkey,
    payer: Pubkey,
    authority: Pubkey,
    system_program: Pubkey,
) -> (accounts: Vec<AccountMeta>)
    ensures
        accounts@ == asset_accounts(
            asset,
            collection,
            payer,
            authority,
            system_program,
        ),
{
    let mut accounts = Vec::new();
    accounts.push(AccountMeta::new(asset, false));
    accounts.push(AccountMeta::new(collection, false));
    accounts.push(AccountMeta::new(payer, true));
    accounts.push(AccountMeta::new_readonly(authority, true));
    accounts.push(AccountMeta::new_readonly(system_program, false));
    accounts.push(AccountMeta::new_readonly(mpl_core_id(), false));
    assert(accounts@ == asset_accounts(
        asset,
        collection,
        payer,
        authority,
        system_program,
    ));
    accounts
}

fn collection_account_metas(
    collection: Pubkey,
    payer: Pubkey,
    authority: Pubkey,
    system_program: Pubkey,
) -> (accounts: Vec<AccountMeta>)
    ensures
        accounts@ == collection_accounts(collection, payer, authority, system_program),
{
    let mut accounts = Vec::new();
    accounts.push(AccountMeta::new(collection, false));
    accounts.push(AccountMeta::new(payer, true));
    accounts.push(AccountMeta::new_readonly(authority, true));
    accounts.push(AccountMeta::new_readonly(system_program, false));
    accounts.push(AccountMeta::new_readonly(mpl_core_id(), false));
    assert(accounts@ == collection_accounts(
        collection,
        payer,
        authority,
        system_program,
    ));
    accounts
}

/// Add a frozen `FreezeDelegate` plugin to an asset and delegate thaw rights to
/// `freeze_authority` (the stake PDA). Adding an owner-managed plugin requires
/// the asset owner to sign as `authority`.
pub fn freeze_asset(
    asset: Pubkey,
    collection: Pubkey,
    payer: Pubkey,
    authority: Pubkey,
    system_program: Pubkey,
    freeze_authority: Pubkey,
) -> (ix: Instruction)
    ensures
        ix@ == freeze_asset_instruction(
            asset,
            collection,
            payer,
            authority,
            system_program,
            freeze_authority,
        ),
{
    let mut data = Vec::new();
    data.push(IX_ADD_PLUGIN);
    Plugin::FreezeDelegate(FreezeDelegate { frozen: true }).serialize(&mut data);
    serialize_optional_authority(
        &Option::Some(PluginAuthority::Address { address: freeze_authority }),
        &mut data,
    );
    assert(data@ =~= seq![IX_ADD_PLUGIN] + freeze_plugin_encoding(true)
        + address_authority_encoding(freeze_authority));
    let accounts = asset_account_metas(
        asset,
        collection,
        payer,
        authority,
        system_program,
    );
    Instruction { program_id: mpl_core_id(), accounts, data }
}

/// Flip the `frozen` flag on an asset's `FreezeDelegate` plugin. The stake PDA
/// holds the plugin authority, so the call is signed with its seeds.
pub fn set_frozen(
    asset: Pubkey,
    collection: Pubkey,
    payer: Pubkey,
    authority: Pubkey,
    system_program: Pubkey,
    frozen: bool,
) -> (ix: Instruction)
    ensures
        ix@ == set_frozen_instruction(
            asset,
            collection,
            payer,
            authority,
            system_program,
            frozen,
        ),
{
    let mut data = Vec::new();
    data.push(IX_UPDATE_PLUGIN);
    Plugin::FreezeDelegate(FreezeDelegate { frozen }).serialize(&mut data);
    let accounts = asset_account_metas(
        asset,
        collection,
        payer,
        authority,
        system_program,
    );
    Instruction { program_id: mpl_core_id(), accounts, data }
}

/// Remove the `FreezeDelegate` plugin from an asset. The asset must be thawed
/// first.
pub fn remove_freeze(
    asset: Pubkey,
    collection: Pubkey,
    payer: Pubkey,
    authority: Pubkey,
    system_program: Pubkey,
) -> (ix: Instruction)
    ensures
        ix@ == remove_freeze_instruction(
            asset,
            collection,
            payer,
            authority,
            system_program,
        ),
{
    let mut data = Vec::new();
    data.push(IX_REMOVE_PLUGIN);
    PluginType::FreezeDelegate.serialize(&mut data);
    assert(data@ =~= seq![IX_REMOVE_PLUGIN, 1u8]);
    let accounts = asset_account_metas(
        asset,
        collection,
        payer,
        authority,
        system_program,
    );
    Instruction { program_id: mpl_core_id(), accounts, data }
}

/// Add an `Attributes` plugin to a collection. Adding a collection plugin
/// requires the collection's update authority to sign.
pub fn add_collection_attributes(
    collection: Pubkey,
    payer: Pubkey,
    update_authority: Pubkey,
    system_program: Pubkey,
    attribute_list: Vec<Attribute>,
    plugin_authority: Pubkey,
) -> (ix: Instruction)
    requires
        attributes_fit(attribute_list_view(attribute_list@)),
    ensures
        ix@ == add_collection_attributes_instruction(
            collection,
            payer,
            update_authority,
            system_program,
            attribute_list_view(attribute_list@),
            plugin_authority,
        ),
{
    let mut data = Vec::new();
    data.push(IX_ADD_COLLECTION_PLUGIN);
    let plugin = Plugin::Attributes(Attributes { attribute_list });
    plugin.serialize(&mut data);
    serialize_optional_authority(
        &Option::Some(PluginAuthority::Address { address: plugin_authority }),
        &mut data,
    );
    assert(data@ =~= seq![IX_ADD_COLLECTION_PLUGIN] + attributes_plugin_encoding(
        attribute_list_view(attribute_list@),
    ) + address_authority_encoding(plugin_authority));
    let accounts = collection_account_metas(
        collection,
        payer,
        update_authority,
        system_program,
    );
    Instruction { program_id: mpl_core_id(), accounts, data }
}

/// Overwrite a collection's `Attributes` plugin. The config PDA holds the plugin
/// authority, so the call is signed with its seeds.
pub fn update_collection_attributes(
    collection: Pubkey,
    payer: Pubkey,
    authority: Pubkey,
    system_program: Pubkey,
    attribute_list: Vec<Attribute>,
) -> (ix: Instruction)
    requires
        attributes_fit(attribute_list_view(attribute_list@)),
    ensures
        ix@ == update_collection_attributes_instruction(
            collection,
            payer,
            authority,
            system_program,
            attribute_list_view(attribute_list@),
        ),
{
    let mut data = Vec::new();
    data.push(IX_UPDATE_COLLECTION_PLUGIN);
    let plugin = Plugin::Attributes(Attributes { attribute_list });
    plugin.serialize(&mut data);
    let accounts = collection_account_metas(
        collection,
        payer,
        authority,
        system_program,
    );
    Instruction { program_id: mpl_core_id(), accounts, data }
}

} // verus!
