//! The static table of known game executables and their display titles.

use vstd::prelude::*;

verus! {

/// The ordered catalog, as pairs of (lower-cased executable name, display
/// title), at the specification level. Earlier entries take precedence when
/// several could match a snapshot.
pub open spec fn spec_catalog() -> Seq<(Seq<char>, Seq<char>)> {
    seq![
        ("haloinfinite.exe"@, "Halo Infinite"@),
        ("mcc-win64-shipping.exe"@, "Halo: The Master Chief Collection"@),
        ("cs2.exe"@, "Counter-Strike 2"@),
        ("valorant-win64-shipping.exe"@, "VALORANT"@),
        ("fortniteclient-win64-shipping.exe"@, "Fortnite"@),
        ("r5apex.exe"@, "Apex Legends"@),
        ("overwatch.exe"@, "Overwatch 2"@),
        ("cod.exe"@, "Call of Duty"@),
        ("eldenring.exe"@, "Elden Ring"@),
        ("eldenring"@, "Elden Ring"@),
        ("dota2.exe"@, "Dota 2"@),
        ("dota2"@, "Dota 2"@),
        ("league of legends.exe"@, "League of Legends"@),
        ("rocketleague.exe"@, "Rocket League"@),
        ("gta5.exe"@, "Grand Theft Auto V"@),
        ("minecraft.exe"@, "Minecraft"@),
        ("rustclient.exe"@, "Rust"@),
        ("pubg-win64-shipping.exe"@, "PUBG: Battlegrounds"@),
        ("rainbowsix.exe"@, "Rainbow Six Siege"@),
        ("rainbowsix_vulkan.exe"@, "Rainbow Six Siege"@),
        ("destiny2.exe"@, "Destiny 2"@),
        ("wow.exe"@, "World of Warcraft"@),
        ("ffxiv_dx11.exe"@, "Final Fantasy XIV"@),
        ("osu!.exe"@, "osu!"@),
    ]
}

/// The catalog as executable data. Each returned pair views to the
/// corresponding entry of [`spec_catalog`], in the same order.
pub fn game_process_catalog() -> (r: Vec<(&'static str, &'static str)>)
    ensures
        r@.len() == spec_catalog().len(),
        forall|i: int|
            0 <= i < r@.len() ==> #[trigger] r@[i].0@ == spec_catalog()[i].0 && r@[i].1@
                == spec_catalog()[i].1,
{
    let r: Vec<(&'static str, &'static str)> = vec![
        ("haloinfinite.exe", "Halo Infinite"),
        ("mcc-win64-shipping.exe", "Halo: The Master Chief Collection"),
        ("cs2.exe", "Counter-Strike 2"),
        ("valorant-win64-shipping.exe", "VALORANT"),
        ("fortniteclient-win64-shipping.exe", "Fortnite"),
        ("r5apex.exe", "Apex Legends"),
        ("overwatch.exe", "Overwatch 2"),
        ("cod.exe", "Call of Duty"),
        ("eldenring.exe", "Elden Ring"),
        ("eldenring", "Elden Ring"),
        ("dota2.exe", "Dota 2"),
        ("dota2", "Dota 2"),
        ("league of legends.exe", "League of Legends"),
        ("rocketleague.exe", "Rocket League"),
        ("gta5.exe", "Grand Theft Auto V"),
        ("minecraft.exe", "Minecraft"),
        ("rustclient.exe", "Rust"),
        ("pubg-win64-shipping.exe", "PUBG: Battlegrounds"),
        ("rainbowsix.exe", "Rainbow Six Siege"),
        ("rainbowsix_vulkan.exe", "Rainbow Six Siege"),
        ("destiny2.exe", "Destiny 2"),
        ("wow.exe", "World of Warcraft"),
        ("ffxiv_dx11.exe", "Final Fantasy XIV"),
        ("osu!.exe", "osu!"),
    ];
    r
}

} // verus!
