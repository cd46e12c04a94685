//! The scopes of the GW2 API that need an authenticated key. Endpoints that
//! need no key are not listed, nor the token tools (`createsubtoken` is kept
//! from developers; token information comes with the `ApiKey`).
use vstd::prelude::*;

verus! {

/// A group of authenticated endpoints and the parts of it a key may reach.
#[derive(Clone, Debug, PartialEq, Eq)]
pub enum ApiKeyScope {
    /// `/account` scopes.
    Account(Vec<AccountScopes>),
    /// `/characters` scopes.
    Characters(Vec<CharacterScopes>),
    /// `/commerce` scopes.
    Commerce(Vec<CommerceScopes>),
    /// `/guild` scopes.
    Guild(Vec<GuildScopes>),
    /// `/pvp` scopes.
    Pvp(Vec<PvpScopes>),
}

/// The parts of `/account`.
#[derive(Clone, Debug, PartialEq, Eq)]
pub enum AccountScopes {
    Account,
    Achievments,
    Bank,
    BuildStorage,
    DailyCrafting,
    Dungeons,
    Dyes,
    Emotes,
    Finishers,
    Gliders,
    Inventory,
    JadeBots,
    LegendaryArmory,
    Luck,
    Mail,
    MailCarriers,
    MapChests,
    Masteries,
    Materials,
    Minis,
    Novelties,
    Outfits,
    Progression,
    Raids,
    Recipes,
    Skiffs,
    Titles,
    Wallet,
    WorldBosses,
    WvW,
    WizardsVault(Vec<WizardsVaultScopes>),
    AccountPvp(Vec<AccountPvpScopes>),
    Mounts(Vec<MountScopes>),
    Home(Vec<HomeScopes>),
    Homestead(Vec<HomesteadScopes>),
    Mastery(Vec<MasteryScopes>),
}

/// The parts of `/account/wizardsvault`.
#[derive(Clone, Debug, PartialEq, Eq)]
pub enum WizardsVaultScopes {
    Daily,
    Listings,
    Special,
    Weekly,
}

/// The parts of `/account/pvp`.
#[derive(Clone, Debug, PartialEq, Eq)]
pub enum AccountPvpScopes {
    Heroes,
}

/// The parts of `/account/mounts`.
#[derive(Clone, Debug, PartialEq, Eq)]
pub enum MountScopes {
    Skins,
    Types,
}

/// The parts of `/account/home`.
#[derive(Clone, Debug, PartialEq, Eq)]
pub enum HomeScopes {
    Cats,
    Nodes,
}

/// The parts of `/account/homestead`.
#[derive(Clone, Debug, PartialEq, Eq)]
pub enum HomesteadScopes {
    Decorations,
    Glyphs,
}

/// The parts of `/account/mastery`.
#[derive(Clone, Debug, PartialEq, Eq)]
pub enum MasteryScopes {
    Points,
}

/// The parts of `/characters`.
#[derive(Clone, Debug, PartialEq, Eq)]
pub enum CharacterScopes {
    Characters,
    Backstory,
    BuildTabs(Vec<BuildTabsScopes>),
    Core,
    Crafting,
    Dungons,
    Equipment,
    EquipmentTabs(Vec<EquipmentTabsScopes>),
    HeroPoints,
    Inventory,
    Quests,
    Recipes,
    Sab,
    Skills,
    Specializations,
    Training,
}

/// The parts of `/characters/<name>/buildtabs`.
#[derive(Clone, Debug, PartialEq, Eq)]
pub enum BuildTabsScopes {
    BuildTabs,
    Active,
}

/// The parts of `/characters/<name>/equipmenttabs`.
#[derive(Clone, Debug, PartialEq, Eq)]
pub enum EquipmentTabsScopes {
    EquipmentTabs,
    Active,
}

/// The parts of `/commerce`.
#[derive(Clone, Debug, PartialEq, Eq)]
pub enum CommerceScopes {
    Delivery,
    Transactions,
}

/// The parts of `/guild/<id>`; `GuildSpecificUpgrades` is
/// `/guild/<id>/upgrades`, not the public `/guild/upgrades`.
#[derive(Clone, Debug, PartialEq, Eq)]
pub enum GuildScopes {
    Guild,
    Log,
    Members,
    Ranks,
    Storage,
    Teams,
    Treasury,
    GuildSpecificUpgrades,
}

/// The parts of `/pvp`.
#[derive(Clone, Debug, PartialEq, Eq)]
pub enum PvpScopes {
    Games,
    Standings,
    Stats,
}

} // verus!
