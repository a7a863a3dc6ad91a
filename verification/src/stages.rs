//! Stage names, their console aliases, and their kingdoms.
//!
//! Three lookup tables drive the console and the status API: alias to home
//! stage, alias to kingdom name, and stage to alias.  A lookup walks its
//! table in order and takes the first match.

use vstd::prelude::*;

verus! {

use vstd::string::StringExecFns;

/// How many console aliases exist.
pub const ALIAS_COUNT: usize = 18;

/// How many stage names the table knows.
pub const STAGE_COUNT: usize = 176;


/// Alias and the home stage it means.
pub open spec fn spec_alias_entry(i: int) -> (Seq<char>, Seq<char>) {
    if i == 0 {
        ("cap"@, "CapWorldHomeStage"@)
    } else if i == 1 {
        ("cascade"@, "WaterfallWorldHomeStage"@)
    } else if i == 2 {
        ("sand"@, "SandWorldHomeStage"@)
    } else if i == 3 {
        ("lake"@, "LakeWorldHomeStage"@)
    } else if i == 4 {
        ("wooded"@, "ForestWorldHomeStage"@)
    } else if i == 5 {
        ("cloud"@, "CloudWorldHomeStage"@)
    } else if i == 6 {
        ("lost"@, "ClashWorldHomeStage"@)
    } else if i == 7 {
        ("metro"@, "CityWorldHomeStage"@)
    } else if i == 8 {
        ("snow"@, "SnowWorldHomeStage"@)
    } else if i == 9 {
        ("sea"@, "SeaWorldHomeStage"@)
    } else if i == 10 {
        ("lunch"@, "LavaWorldHomeStage"@)
    } else if i == 11 {
        ("ruined"@, "BossRaidWorldHomeStage"@)
    } else if i == 12 {
        ("bowser"@, "SkyWorldHomeStage"@)
    } else if i == 13 {
        ("moon"@, "MoonWorldHomeStage"@)
    } else if i == 14 {
        ("mush"@, "PeachWorldHomeStage"@)
    } else if i == 15 {
        ("dark"@, "Special1WorldHomeStage"@)
    } else if i == 16 {
        ("darker"@, "Special2WorldHomeStage"@)
    } else {
        ("odyssey"@, "HomeShipInsideStage"@)
    }
}

/// Alias and the kingdom it names.
pub open spec fn spec_kingdom_entry(i: int) -> (Seq<char>, Seq<char>) {
    if i == 0 {
        ("cap"@, "Cap Kingdom"@)
    } else if i == 1 {
        ("cascade"@, "Cascade Kingdom"@)
    } else if i == 2 {
        ("sand"@, "Sand Kingdom"@)
    } else if i == 3 {
        ("lake"@, "Lake Kingdom"@)
    } else if i == 4 {
        ("wooded"@, "Wooded Kingdom"@)
    } else if i == 5 {
        ("cloud"@, "Cloud Kingdom"@)
    } else if i == 6 {
        ("lost"@, "Lost Kingdom"@)
    } else if i == 7 {
        ("metro"@, "Metro Kingdom"@)
    } else if i == 8 {
        ("snow"@, "Snow Kingdom"@)
    } else if i == 9 {
        ("sea"@, "Seaside Kingdom"@)
    } else if i == 10 {
        ("lunch"@, "Luncheon Kingdom"@)
    } else if i == 11 {
        ("ruined"@, "Ruined Kingdom"@)
    } else if i == 12 {
        ("bowser"@, "Bowser's Kingdom"@)
    } else if i == 13 {
        ("moon"@, "Moon Kingdom"@)
    } else if i == 14 {
        ("mush"@, "Mushroom Kingdom"@)
    } else if i == 15 {
        ("dark"@, "Dark Side"@)
    } else if i == 16 {
        ("darker"@, "Darker Side"@)
    } else {
        ("odyssey"@, "Odyssey"@)
    }
}

/// Stage and the alias it belongs to.
pub open spec fn spec_stage_entry(i: int) -> (Seq<char>, Seq<char>) {
    if i == 0 {
        ("CapWorldHomeStage"@, "cap"@)
    } else if i == 1 {
        ("CapWorldTowerStage"@, "cap"@)
    } else if i == 2 {
        ("FrogSearchExStage"@, "cap"@)
    } else if i == 3 {
        ("PoisonWaveExStage"@, "cap"@)
    } else if i == 4 {
        ("PushBlockExStage"@, "cap"@)
    } else if i == 5 {
        ("RollingExStage"@, "cap"@)
    } else if i == 6 {
        ("WaterfallWorldHomeStage"@, "cascade"@)
    } else if i == 7 {
        ("TrexPoppunExStage"@, "cascade"@)
    } else if i == 8 {
        ("Lift2DExStage"@, "cascade"@)
    } else if i == 9 {
        ("WanwanClashExStage"@, "cascade"@)
    } else if i == 10 {
        ("CapAppearExStage"@, "cascade"@)
    } else if i == 11 {
        ("WindBlowExStage"@, "cascade"@)
    } else if i == 12 {
        ("SandWorldHomeStage"@, "sand"@)
    } else if i == 13 {
        ("SandWorldShopStage"@, "sand"@)
    } else if i == 14 {
        ("SandWorldSlotStage"@, "sand"@)
    } else if i == 15 {
        ("SandWorldVibrationStage"@, "sand"@)
    } else if i == 16 {
        ("SandWorldSecretStage"@, "sand"@)
    } else if i == 17 {
        ("SandWorldMeganeExStage"@, "sand"@)
    } else if i == 18 {
        ("SandWorldKillerExStage"@, "sand"@)
    } else if i == 19 {
        ("SandWorldPressExStage"@, "sand"@)
    } else if i == 20 {
        ("SandWorldSphinxExStage"@, "sand"@)
    } else if i == 21 {
        ("SandWorldCostumeStage"@, "sand"@)
    } else if i == 22 {
        ("SandWorldPyramid000Stage"@, "sand"@)
    } else if i == 23 {
        ("SandWorldPyramid001Stage"@, "sand"@)
    } else if i == 24 {
        ("SandWorldUnderground000Stage"@, "sand"@)
    } else if i == 25 {
        ("SandWorldUnderground001Stage"@, "sand"@)
    } else if i == 26 {
        ("SandWorldRotateExStage"@, "sand"@)
    } else if i == 27 {
        ("MeganeLiftExStage"@, "sand"@)
    } else if i == 28 {
        ("RocketFlowerExStage"@, "sand"@)
    } else if i == 29 {
        ("WaterTubeExStage"@, "sand"@)
    } else if i == 30 {
        ("LakeWorldHomeStage"@, "lake"@)
    } else if i == 31 {
        ("LakeWorldShopStage"@, "lake"@)
    } else if i == 32 {
        ("FastenerExStage"@, "lake"@)
    } else if i == 33 {
        ("TrampolineWallCatchExStage"@, "lake"@)
    } else if i == 34 {
        ("GotogotonExStage"@, "lake"@)
    } else if i == 35 {
        ("FrogPoisonExStage"@, "lake"@)
    } else if i == 36 {
        ("ForestWorldHomeStage"@, "wooded"@)
    } else if i == 37 {
        ("ForestWorldWaterExStage"@, "wooded"@)
    } else if i == 38 {
        ("ForestWorldTowerStage"@, "wooded"@)
    } else if i == 39 {
        ("ForestWorldBossStage"@, "wooded"@)
    } else if i == 40 {
        ("ForestWorldBonusStage"@, "wooded"@)
    } else if i == 41 {
        ("ForestWorldCloudBonusExStage"@, "wooded"@)
    } else if i == 42 {
        ("FogMountainExStage"@, "wooded"@)
    } else if i == 43 {
        ("RailCollisionExStage"@, "wooded"@)
    } else if i == 44 {
        ("ShootingElevatorExStage"@, "wooded"@)
    } else if i == 45 {
        ("ForestWorldWoodsStage"@, "wooded"@)
    } else if i == 46 {
        ("ForestWorldWoodsTreasureStage"@, "wooded"@)
    } else if i == 47 {
        ("ForestWorldWoodsCostumeStage"@, "wooded"@)
    } else if i == 48 {
        ("PackunPoisonExStage"@, "wooded"@)
    } else if i == 49 {
        ("AnimalChaseExStage"@, "wooded"@)
    } else if i == 50 {
        ("KillerRoadExStage"@, "wooded"@)
    } else if i == 51 {
        ("CloudWorldHomeStage"@, "cloud"@)
    } else if i == 52 {
        ("FukuwaraiKuriboStage"@, "cloud"@)
    } else if i == 53 {
        ("Cube2DExStage"@, "cloud"@)
    } else if i == 54 {
        ("ClashWorldHomeStage"@, "lost"@)
    } else if i == 55 {
        ("ClashWorldShopStage"@, "lost"@)
    } else if i == 56 {
        ("ImomuPoisonExStage"@, "lost"@)
    } else if i == 57 {
        ("JangoExStage"@, "lost"@)
    } else if i == 58 {
        ("CityWorldHomeStage"@, "metro"@)
    } else if i == 59 {
        ("CityWorldMainTowerStage"@, "metro"@)
    } else if i == 60 {
        ("CityWorldFactoryStage"@, "metro"@)
    } else if i == 61 {
        ("CityWorldShop01Stage"@, "metro"@)
    } else if i == 62 {
        ("CityWorldSandSlotStage"@, "metro"@)
    } else if i == 63 {
        ("CityPeopleRoadStage"@, "metro"@)
    } else if i == 64 {
        ("PoleGrabCeilExStage"@, "metro"@)
    } else if i == 65 {
        ("TrexBikeExStage"@, "metro"@)
    } else if i == 66 {
        ("PoleKillerExStage"@, "metro"@)
    } else if i == 67 {
        ("Note2D3DRoomExStage"@, "metro"@)
    } else if i == 68 {
        ("ShootingCityExStage"@, "metro"@)
    } else if i == 69 {
        ("CapRotatePackunExStage"@, "metro"@)
    } else if i == 70 {
        ("RadioControlExStage"@, "metro"@)
    } else if i == 71 {
        ("ElectricWireExStage"@, "metro"@)
    } else if i == 72 {
        ("Theater2DExStage"@, "metro"@)
    } else if i == 73 {
        ("DonsukeExStage"@, "metro"@)
    } else if i == 74 {
        ("SwingSteelExStage"@, "metro"@)
    } else if i == 75 {
        ("BikeSteelExStage"@, "metro"@)
    } else if i == 76 {
        ("SnowWorldHomeStage"@, "snow"@)
    } else if i == 77 {
        ("SnowWorldTownStage"@, "snow"@)
    } else if i == 78 {
        ("SnowWorldShopStage"@, "snow"@)
    } else if i == 79 {
        ("SnowWorldLobby000Stage"@, "snow"@)
    } else if i == 80 {
        ("SnowWorldLobby001Stage"@, "snow"@)
    } else if i == 81 {
        ("SnowWorldRaceTutorialStage"@, "snow"@)
    } else if i == 82 {
        ("SnowWorldRace000Stage"@, "snow"@)
    } else if i == 83 {
        ("SnowWorldRace001Stage"@, "snow"@)
    } else if i == 84 {
        ("SnowWorldCostumeStage"@, "snow"@)
    } else if i == 85 {
        ("SnowWorldCloudBonusExStage"@, "snow"@)
    } else if i == 86 {
        ("IceWalkerExStage"@, "snow"@)
    } else if i == 87 {
        ("IceWaterBlockExStage"@, "snow"@)
    } else if i == 88 {
        ("ByugoPuzzleExStage"@, "snow"@)
    } else if i == 89 {
        ("IceWaterDashExStage"@, "snow"@)
    } else if i == 90 {
        ("SnowWorldLobbyExStage"@, "snow"@)
    } else if i == 91 {
        ("SnowWorldRaceExStage"@, "snow"@)
    } else if i == 92 {
        ("SnowWorldRaceHardExStage"@, "snow"@)
    } else if i == 93 {
        ("KillerRailCollisionExStage"@, "snow"@)
    } else if i == 94 {
        ("SeaWorldHomeStage"@, "sea"@)
    } else if i == 95 {
        ("SeaWorldUtsuboCaveStage"@, "sea"@)
    } else if i == 96 {
        ("SeaWorldVibrationStage"@, "sea"@)
    } else if i == 97 {
        ("SeaWorldSecretStage"@, "sea"@)
    } else if i == 98 {
        ("SeaWorldCostumeStage"@, "sea"@)
    } else if i == 99 {
        ("SeaWorldSneakingManStage"@, "sea"@)
    } else if i == 100 {
        ("SenobiTowerExStage"@, "sea"@)
    } else if i == 101 {
        ("CloudExStage"@, "sea"@)
    } else if i == 102 {
        ("WaterValleyExStage"@, "sea"@)
    } else if i == 103 {
        ("ReflectBombExStage"@, "sea"@)
    } else if i == 104 {
        ("TogezoRotateExStage"@, "sea"@)
    } else if i == 105 {
        ("LavaWorldHomeStage"@, "lunch"@)
    } else if i == 106 {
        ("LavaWorldUpDownExStage"@, "lunch"@)
    } else if i == 107 {
        ("LavaBonus1Zone"@, "lunch"@)
    } else if i == 108 {
        ("LavaWorldShopStage"@, "lunch"@)
    } else if i == 109 {
        ("LavaWorldCostumeStage"@, "lunch"@)
    } else if i == 110 {
        ("ForkExStage"@, "lunch"@)
    } else if i == 111 {
        ("LavaWorldExcavationExStage"@, "lunch"@)
    } else if i == 112 {
        ("LavaWorldClockExStage"@, "lunch"@)
    } else if i == 113 {
        ("LavaWorldBubbleLaneExStage"@, "lunch"@)
    } else if i == 114 {
        ("LavaWorldTreasureStage"@, "lunch"@)
    } else if i == 115 {
        ("GabuzouClockExStage"@, "lunch"@)
    } else if i == 116 {
        ("CapAppearLavaLiftExStage"@, "lunch"@)
    } else if i == 117 {
        ("LavaWorldFenceLiftExStage"@, "lunch"@)
    } else if i == 118 {
        ("BossRaidWorldHomeStage"@, "ruined"@)
    } else if i == 119 {
        ("DotTowerExStage"@, "ruined"@)
    } else if i == 120 {
        ("BullRunExStage"@, "ruined"@)
    } else if i == 121 {
        ("SkyWorldHomeStage"@, "bowser"@)
    } else if i == 122 {
        ("SkyWorldShopStage"@, "bowser"@)
    } else if i == 123 {
        ("SkyWorldCostumeStage"@, "bowser"@)
    } else if i == 124 {
        ("SkyWorldCloudBonusExStage"@, "bowser"@)
    } else if i == 125 {
        ("SkyWorldTreasureStage"@, "bowser"@)
    } else if i == 126 {
        ("JizoSwitchExStage"@, "bowser"@)
    } else if i == 127 {
        ("TsukkunRotateExStage"@, "bowser"@)
    } else if i == 128 {
        ("KaronWingTowerStage"@, "bowser"@)
    } else if i == 129 {
        ("TsukkunClimbExStage"@, "bowser"@)
    } else if i == 130 {
        ("MoonWorldHomeStage"@, "moon"@)
    } else if i == 131 {
        ("MoonWorldCaptureParadeStage"@, "moon"@)
    } else if i == 132 {
        ("MoonWorldWeddingRoomStage"@, "moon"@)
    } else if i == 133 {
        ("MoonWorldKoopa1Stage"@, "moon"@)
    } else if i == 134 {
        ("MoonWorldBasementStage"@, "moon"@)
    } else if i == 135 {
        ("MoonWorldWeddingRoom2Stage"@, "moon"@)
    } else if i == 136 {
        ("MoonWorldKoopa2Stage"@, "moon"@)
    } else if i == 137 {
        ("MoonWorldShopRoom"@, "moon"@)
    } else if i == 138 {
        ("MoonWorldSphinxRoom"@, "moon"@)
    } else if i == 139 {
        ("MoonAthleticExStage"@, "moon"@)
    } else if i == 140 {
        ("Galaxy2DExStage"@, "moon"@)
    } else if i == 141 {
        ("PeachWorldHomeStage"@, "mush"@)
    } else if i == 142 {
        ("PeachWorldShopStage"@, "mush"@)
    } else if i == 143 {
        ("PeachWorldCastleStage"@, "mush"@)
    } else if i == 144 {
        ("PeachWorldCostumeStage"@, "mush"@)
    } else if i == 145 {
        ("FukuwaraiMarioStage"@, "mush"@)
    } else if i == 146 {
        ("DotHardExStage"@, "mush"@)
    } else if i == 147 {
        ("YoshiCloudExStage"@, "mush"@)
    } else if i == 148 {
        ("PeachWorldPictureBossMagmaStage"@, "mush"@)
    } else if i == 149 {
        ("RevengeBossMagmaStage"@, "mush"@)
    } else if i == 150 {
        ("PeachWorldPictureGiantWanderBossStage"@, "mush"@)
    } else if i == 151 {
        ("RevengeGiantWanderBossStage"@, "mush"@)
    } else if i == 152 {
        ("PeachWorldPictureBossKnuckleStage"@, "mush"@)
    } else if i == 153 {
        ("RevengeBossKnuckleStage"@, "mush"@)
    } else if i == 154 {
        ("PeachWorldPictureBossForestStage"@, "mush"@)
    } else if i == 155 {
        ("RevengeForestBossStage"@, "mush"@)
    } else if i == 156 {
        ("PeachWorldPictureMofumofuStage"@, "mush"@)
    } else if i == 157 {
        ("RevengeMofumofuStage"@, "mush"@)
    } else if i == 158 {
        ("PeachWorldPictureBossRaidStage"@, "mush"@)
    } else if i == 159 {
        ("RevengeBossRaidStage"@, "mush"@)
    } else if i == 160 {
        ("Special1WorldHomeStage"@, "dark"@)
    } else if i == 161 {
        ("Special1WorldTowerStackerStage"@, "dark"@)
    } else if i == 162 {
        ("Special1WorldTowerBombTailStage"@, "dark"@)
    } else if i == 163 {
        ("Special1WorldTowerFireBlowerStage"@, "dark"@)
    } else if i == 164 {
        ("Special1WorldTowerCapThrowerStage"@, "dark"@)
    } else if i == 165 {
        ("KillerRoadNoCapExStage"@, "dark"@)
    } else if i == 166 {
        ("PackunPoisonNoCapExStage"@, "dark"@)
    } else if i == 167 {
        ("BikeSteelNoCapExStage"@, "dark"@)
    } else if i == 168 {
        ("ShootingCityYoshiExStage"@, "dark"@)
    } else if i == 169 {
        ("SenobiTowerYoshiExStage"@, "dark"@)
    } else if i == 170 {
        ("LavaWorldUpDownYoshiExStage"@, "dark"@)
    } else if i == 171 {
        ("Special2WorldHomeStage"@, "darker"@)
    } else if i == 172 {
        ("Special2WorldLavaStage"@, "darker"@)
    } else if i == 173 {
        ("Special2WorldCloudStage"@, "darker"@)
    } else if i == 174 {
        ("Special2WorldKoopaStage"@, "darker"@)
    } else {
        ("HomeShipInsideStage"@, "odyssey"@)
    }
}

fn alias_entry(i: usize) -> (r: (String, String))
    requires
        i < 18,
    ensures
        (r.0@, r.1@) == spec_alias_entry(i as int),
{
    match i {
        0 => (String::from_str("cap"), String::from_str("CapWorldHomeStage")),
        1 => (String::from_str("cascade"), String::from_str("WaterfallWorldHomeStage")),
        2 => (String::from_str("sand"), String::from_str("SandWorldHomeStage")),
        3 => (String::from_str("lake"), String::from_str("LakeWorldHomeStage")),
        4 => (String::from_str("wooded"), String::from_str("ForestWorldHomeStage")),
        5 => (String::from_str("cloud"), String::from_str("CloudWorldHomeStage")),
        6 => (String::from_str("lost"), String::from_str("ClashWorldHomeStage")),
        7 => (String::from_str("metro"), String::from_str("CityWorldHomeStage")),
        8 => (String::from_str("snow"), String::from_str("SnowWorldHomeStage")),
        9 => (String::from_str("sea"), String::from_str("SeaWorldHomeStage")),
        10 => (String::from_str("lunch"), String::from_str("LavaWorldHomeStage")),
        11 => (String::from_str("ruined"), String::from_str("BossRaidWorldHomeStage")),
        12 => (String::from_str("bowser"), String::from_str("SkyWorldHomeStage")),
        13 => (String::from_str("moon"), String::from_str("MoonWorldHomeStage")),
        14 => (String::from_str("mush"), String::from_str("PeachWorldHomeStage")),
        15 => (String::from_str("dark"), String::from_str("Special1WorldHomeStage")),
        16 => (String::from_str("darker"), String::from_str("Special2WorldHomeStage")),
        _ => (String::from_str("odyssey"), String::from_str("HomeShipInsideStage")),
    }
}

fn kingdom_entry(i: usize) -> (r: (String, String))
    requires
        i < 18,
    ensures
        (r.0@, r.1@) == spec_kingdom_entry(i as int),
{
    match i {
        0 => (String::from_str("cap"), String::from_str("Cap Kingdom")),
        1 => (String::from_str("cascade"), String::from_str("Cascade Kingdom")),
        2 => (String::from_str("sand"), String::from_str("Sand Kingdom")),
        3 => (String::from_str("lake"), String::from_str("Lake Kingdom")),
        4 => (String::from_str("wooded"), String::from_str("Wooded Kingdom")),
        5 => (String::from_str("cloud"), String::from_str("Cloud Kingdom")),
        6 => (String::from_str("lost"), String::from_str("Lost Kingdom")),
        7 => (String::from_str("metro"), String::from_str("Metro Kingdom")),
        8 => (String::from_str("snow"), String::from_str("Snow Kingdom")),
        9 => (String::from_str("sea"), String::from_str("Seaside Kingdom")),
        10 => (String::from_str("lunch"), String::from_str("Luncheon Kingdom")),
        11 => (String::from_str("ruined"), String::from_str("Ruined Kingdom")),
        12 => (String::from_str("bowser"), String::from_str("Bowser's Kingdom")),
        13 => (String::from_str("moon"), String::from_str("Moon Kingdom")),
        14 => (String::from_str("mush"), String::from_str("Mushroom Kingdom")),
        15 => (String::from_str("dark"), String::from_str("Dark Side")),
        16 => (String::from_str("darker"), String::from_str("Darker Side")),
        _ => (String::from_str("odyssey"), String::from_str("Odyssey")),
    }
}

#[verifier::rlimit(100)]
fn stage_entry(i: usize) -> (r: (String, String))
    requires
        i < 176,
    ensures
        (r.0@, r.1@) == spec_stage_entry(i as int),
{
    match i {
        0 => (String::from_str("CapWorldHomeStage"), String::from_str("cap")),
        1 => (String::from_str("CapWorldTowerStage"), String::from_str("cap")),
        2 => (String::from_str("FrogSearchExStage"), String::from_str("cap")),
        3 => (String::from_str("PoisonWaveExStage"), String::from_str("cap")),
        4 => (String::from_str("PushBlockExStage"), String::from_str("cap")),
        5 => (String::from_str("RollingExStage"), String::from_str("cap")),
        6 => (String::from_str("WaterfallWorldHomeStage"), String::from_str("cascade")),
        7 => (String::from_str("TrexPoppunExStage"), String::from_str("cascade")),
        8 => (String::from_str("Lift2DExStage"), String::from_str("cascade")),
        9 => (String::from_str("WanwanClashExStage"), String::from_str("cascade")),
        10 => (String::from_str("CapAppearExStage"), String::from_str("cascade")),
        11 => (String::from_str("WindBlowExStage"), String::from_str("cascade")),
        12 => (String::from_str("SandWorldHomeStage"), String::from_str("sand")),
        13 => (String::from_str("SandWorldShopStage"), String::from_str("sand")),
        14 => (String::from_str("SandWorldSlotStage"), String::from_str("sand")),
        15 => (String::from_str("SandWorldVibrationStage"), String::from_str("sand")),
        16 => (String::from_str("SandWorldSecretStage"), String::from_str("sand")),
        17 => (String::from_str("SandWorldMeganeExStage"), String::from_str("sand")),
        18 => (String::from_str("SandWorldKillerExStage"), String::from_str("sand")),
        19 => (String::from_str("SandWorldPressExStage"), String::from_str("sand")),
        20 => (String::from_str("SandWorldSphinxExStage"), String::from_str("sand")),
        21 => (String::from_str("SandWorldCostumeStage"), String::from_str("sand")),
        22 => (String::from_str("SandWorldPyramid000Stage"), String::from_str("sand")),
        23 => (String::from_str("SandWorldPyramid001Stage"), String::from_str("sand")),
        24 => (String::from_str("SandWorldUnderground000Stage"), String::from_str("sand")),
        25 => (String::from_str("SandWorldUnderground001Stage"), String::from_str("sand")),
        26 => (String::from_str("SandWorldRotateExStage"), String::from_str("sand")),
        27 => (String::from_str("MeganeLiftExStage"), String::from_str("sand")),
        28 => (String::from_str("RocketFlowerExStage"), String::from_str("sand")),
        29 => (String::from_str("WaterTubeExStage"), String::from_str("sand")),
        30 => (String::from_str("LakeWorldHomeStage"), String::from_str("lake")),
        31 => (String::from_str("LakeWorldShopStage"), String::from_str("lake")),
        32 => (String::from_str("FastenerExStage"), String::from_str("lake")),
        33 => (String::from_str("TrampolineWallCatchExStage"), String::from_str("lake")),
        34 => (String::from_str("GotogotonExStage"), String::from_str("lake")),
        35 => (String::from_str("FrogPoisonExStage"), String::from_str("lake")),
        36 => (String::from_str("ForestWorldHomeStage"), String::from_str("wooded")),
        37 => (String::from_str("ForestWorldWaterExStage"), String::from_str("wooded")),
        38 => (String::from_str("ForestWorldTowerStage"), String::from_str("wooded")),
        39 => (String::from_str("ForestWorldBossStage"), String::from_str("wooded")),
        40 => (String::from_str("ForestWorldBonusStage"), String::from_str("wooded")),
        41 => (String::from_str("ForestWorldCloudBonusExStage"), String::from_str("wooded")),
        42 => (String::from_str("FogMountainExStage"), String::from_str("wooded")),
        43 => (String::from_str("RailCollisionExStage"), String::from_str("wooded")),
        44 => (String::from_str("ShootingElevatorExStage"), String::from_str("wooded")),
        45 => (String::from_str("ForestWorldWoodsStage"), String::from_str("wooded")),
        46 => (String::from_str("ForestWorldWoodsTreasureStage"), String::from_str("wooded")),
        47 => (String::from_str("ForestWorldWoodsCostumeStage"), String::from_str("wooded")),
        48 => (String::from_str("PackunPoisonExStage"), String::from_str("wooded")),
        49 => (String::from_str("AnimalChaseExStage"), String::from_str("wooded")),
        50 => (String::from_str("KillerRoadExStage"), String::from_str("wooded")),
        51 => (String::from_str("CloudWorldHomeStage"), String::from_str("cloud")),
        52 => (String::from_str("FukuwaraiKuriboStage"), String::from_str("cloud")),
        53 => (String::from_str("Cube2DExStage"), String::from_str("cloud")),
        54 => (String::from_str("ClashWorldHomeStage"), String::from_str("lost")),
        55 => (String::from_str("ClashWorldShopStage"), String::from_str("lost")),
        56 => (String::from_str("ImomuPoisonExStage"), String::from_str("lost")),
        57 => (String::from_str("JangoExStage"), String::from_str("lost")),
        58 => (String::from_str("CityWorldHomeStage"), String::from_str("metro")),
        59 => (String::from_str("CityWorldMainTowerStage"), String::from_str("metro")),
        60 => (String::from_str("CityWorldFactoryStage"), String::from_str("metro")),
        61 => (String::from_str("CityWorldShop01Stage"), String::from_str("metro")),
        62 => (String::from_str("CityWorldSandSlotStage"), String::from_str("metro")),
        63 => (String::from_str("CityPeopleRoadStage"), String::from_str("metro")),
        64 => (String::from_str("PoleGrabCeilExStage"), String::from_str("metro")),
        65 => (String::from_str("TrexBikeExStage"), String::from_str("metro")),
        66 => (String::from_str("PoleKillerExStage"), String::from_str("metro")),
        67 => (String::from_str("Note2D3DRoomExStage"), String::from_str("metro")),
        68 => (String::from_str("ShootingCityExStage"), String::from_str("metro")),
        69 => (String::from_str("CapRotatePackunExStage"), String::from_str("metro")),
        70 => (String::from_str("RadioControlExStage"), String::from_str("metro")),
        71 => (String::from_str("ElectricWireExStage"), String::from_str("metro")),
        72 => (String::from_str("Theater2DExStage"), String::from_str("metro")),
        73 => (String::from_str("DonsukeExStage"), String::from_str("metro")),
        74 => (String::from_str("SwingSteelExStage"), String::from_str("metro")),
        75 => (String::from_str("BikeSteelExStage"), String::from_str("metro")),
        76 => (String::from_str("SnowWorldHomeStage"), String::from_str("snow")),
        77 => (String::from_str("SnowWorldTownStage"), String::from_str("snow")),
        78 => (String::from_str("SnowWorldShopStage"), String::from_str("snow")),
        79 => (String::from_str("SnowWorldLobby000Stage"), String::from_str("snow")),
        80 => (String::from_str("SnowWorldLobby001Stage"), String::from_str("snow")),
        81 => (String::from_str("SnowWorldRaceTutorialStage"), String::from_str("snow")),
        82 => (String::from_str("SnowWorldRace000Stage"), String::from_str("snow")),
        83 => (String::from_str("SnowWorldRace001Stage"), String::from_str("snow")),
        84 => (String::from_str("SnowWorldCostumeStage"), String::from_str("snow")),
        85 => (String::from_str("SnowWorldCloudBonusExStage"), String::from_str("snow")),
        86 => (String::from_str("IceWalkerExStage"), String::from_str("snow")),
        87 => (String::from_str("IceWaterBlockExStage"), String::from_str("snow")),
        88 => (String::from_str("ByugoPuzzleExStage"), String::from_str("snow")),
        89 => (String::from_str("IceWaterDashExStage"), String::from_str("snow")),
        90 => (String::from_str("SnowWorldLobbyExStage"), String::from_str("snow")),
        91 => (String::from_str("SnowWorldRaceExStage"), String::from_str("snow")),
        92 => (String::from_str("SnowWorldRaceHardExStage"), String::from_str("snow")),
        93 => (String::from_str("KillerRailCollisionExStage"), String::from_str("snow")),
        94 => (String::from_str("SeaWorldHomeStage"), String::from_str("sea")),
        95 => (String::from_str("SeaWorldUtsuboCaveStage"), String::from_str("sea")),
        96 => (String::from_str("SeaWorldVibrationStage"), String::from_str("sea")),
        97 => (String::from_str("SeaWorldSecretStage"), String::from_str("sea")),
        98 => (String::from_str("SeaWorldCostumeStage"), String::from_str("sea")),
        99 => (String::from_str("SeaWorldSneakingManStage"), String::from_str("sea")),
        100 => (String::from_str("SenobiTowerExStage"), String::from_str("sea")),
        101 => (String::from_str("CloudExStage"), String::from_str("sea")),
        102 => (String::from_str("WaterValleyExStage"), String::from_str("sea")),
        103 => (String::from_str("ReflectBombExStage"), String::from_str("sea")),
        104 => (String::from_str("TogezoRotateExStage"), String::from_str("sea")),
        105 => (String::from_str("LavaWorldHomeStage"), String::from_str("lunch")),
        106 => (String::from_str("LavaWorldUpDownExStage"), String::from_str("lunch")),
        107 => (String::from_str("LavaBonus1Zone"), String::from_str("lunch")),
        108 => (String::from_str("LavaWorldShopStage"), String::from_str("lunch")),
        109 => (String::from_str("LavaWorldCostumeStage"), String::from_str("lunch")),
        110 => (String::from_str("ForkExStage"), String::from_str("lunch")),
        111 => (String::from_str("LavaWorldExcavationExStage"), String::from_str("lunch")),
        112 => (String::from_str("LavaWorldClockExStage"), String::from_str("lunch")),
        113 => (String::from_str("LavaWorldBubbleLaneExStage"), String::from_str("lunch")),
        114 => (String::from_str("LavaWorldTreasureStage"), String::from_str("lunch")),
        115 => (String::from_str("GabuzouClockExStage"), String::from_str("lunch")),
        116 => (String::from_str("CapAppearLavaLiftExStage"), String::from_str("lunch")),
        117 => (String::from_str("LavaWorldFenceLiftExStage"), String::from_str("lunch")),
        118 => (String::from_str("BossRaidWorldHomeStage"), String::from_str("ruined")),
        119 => (String::from_str("DotTowerExStage"), String::from_str("ruined")),
        120 => (String::from_str("BullRunExStage"), String::from_str("ruined")),
        121 => (String::from_str("SkyWorldHomeStage"), String::from_str("bowser")),
        122 => (String::from_str("SkyWorldShopStage"), String::from_str("bowser")),
        123 => (String::from_str("SkyWorldCostumeStage"), String::from_str("bowser")),
        124 => (String::from_str("SkyWorldCloudBonusExStage"), String::from_str("bowser")),
        125 => (String::from_str("SkyWorldTreasureStage"), String::from_str("bowser")),
        126 => (String::from_str("JizoSwitchExStage"), String::from_str("bowser")),
        127 => (String::from_str("TsukkunRotateExStage"), String::from_str("bowser")),
        128 => (String::from_str("KaronWingTowerStage"), String::from_str("bowser")),
        129 => (String::from_str("TsukkunClimbExStage"), String::from_str("bowser")),
        130 => (String::from_str("MoonWorldHomeStage"), String::from_str("moon")),
        131 => (String::from_str("MoonWorldCaptureParadeStage"), String::from_str("moon")),
        132 => (String::from_str("MoonWorldWeddingRoomStage"), String::from_str("moon")),
        133 => (String::from_str("MoonWorldKoopa1Stage"), String::from_str("moon")),
        134 => (String::from_str("MoonWorldBasementStage"), String::from_str("moon")),
        135 => (String::from_str("MoonWorldWeddingRoom2Stage"), String::from_str("moon")),
        136 => (String::from_str("MoonWorldKoopa2Stage"), String::from_str("moon")),
        137 => (String::from_str("MoonWorldShopRoom"), String::from_str("moon")),
        138 => (String::from_str("MoonWorldSphinxRoom"), String::from_str("moon")),
        139 => (String::from_str("MoonAthleticExStage"), String::from_str("moon")),
        140 => (String::from_str("Galaxy2DExStage"), String::from_str("moon")),
        141 => (String::from_str("PeachWorldHomeStage"), String::from_str("mush")),
        142 => (String::from_str("PeachWorldShopStage"), String::from_str("mush")),
        143 => (String::from_str("PeachWorldCastleStage"), String::from_str("mush")),
        144 => (String::from_str("PeachWorldCostumeStage"), String::from_str("mush")),
        145 => (String::from_str("FukuwaraiMarioStage"), String::from_str("mush")),
        146 => (String::from_str("DotHardExStage"), String::from_str("mush")),
        147 => (String::from_str("YoshiCloudExStage"), String::from_str("mush")),
        148 => (String::from_str("PeachWorldPictureBossMagmaStage"), String::from_str("mush")),
        149 => (String::from_str("RevengeBossMagmaStage"), String::from_str("mush")),
        150 => (String::from_str("PeachWorldPictureGiantWanderBossStage"), String::from_str("mush")),
        151 => (String::from_str("RevengeGiantWanderBossStage"), String::from_str("mush")),
        152 => (String::from_str("PeachWorldPictureBossKnuckleStage"), String::from_str("mush")),
        153 => (String::from_str("RevengeBossKnuckleStage"), String::from_str("mush")),
        154 => (String::from_str("PeachWorldPictureBossForestStage"), String::from_str("mush")),
        155 => (String::from_str("RevengeForestBossStage"), String::from_str("mush")),
        156 => (String::from_str("PeachWorldPictureMofumofuStage"), String::from_str("mush")),
        157 => (String::from_str("RevengeMofumofuStage"), String::from_str("mush")),
        158 => (String::from_str("PeachWorldPictureBossRaidStage"), String::from_str("mush")),
        159 => (String::from_str("RevengeBossRaidStage"), String::from_str("mush")),
        160 => (String::from_str("Special1WorldHomeStage"), String::from_str("dark")),
        161 => (String::from_str("Special1WorldTowerStackerStage"), String::from_str("dark")),
        162 => (String::from_str("Special1WorldTowerBombTailStage"), String::from_str("dark")),
        163 => (String::from_str("Special1WorldTowerFireBlowerStage"), String::from_str("dark")),
        164 => (String::from_str("Special1WorldTowerCapThrowerStage"), String::from_str("dark")),
        165 => (String::from_str("KillerRoadNoCapExStage"), String::from_str("dark")),
        166 => (String::from_str("PackunPoisonNoCapExStage"), String::from_str("dark")),
        167 => (String::from_str("BikeSteelNoCapExStage"), String::from_str("dark")),
        168 => (String::from_str("ShootingCityYoshiExStage"), String::from_str("dark")),
        169 => (String::from_str("SenobiTowerYoshiExStage"), String::from_str("dark")),
        170 => (String::from_str("LavaWorldUpDownYoshiExStage"), String::from_str("dark")),
        171 => (String::from_str("Special2WorldHomeStage"), String::from_str("darker")),
        172 => (String::from_str("Special2WorldLavaStage"), String::from_str("darker")),
        173 => (String::from_str("Special2WorldCloudStage"), String::from_str("darker")),
        174 => (String::from_str("Special2WorldKoopaStage"), String::from_str("darker")),
        _ => (String::from_str("HomeShipInsideStage"), String::from_str("odyssey")),
    }
}


/// First-match lookup in the alias table, from entry `i` on.
pub open spec fn spec_lookup_alias(i: int, s: Seq<char>) -> Option<Seq<char>>
    decreases ALIAS_COUNT - i,
{
    if i < 0 || i >= ALIAS_COUNT {
        Option::None
    } else if spec_alias_entry(i).0 == s {
        Option::Some(spec_alias_entry(i).1)
    } else {
        spec_lookup_alias(i + 1, s)
    }
}

/// First-match lookup in the kingdom table, from entry `i` on.
pub open spec fn spec_lookup_kingdom(i: int, s: Seq<char>) -> Option<Seq<char>>
    decreases ALIAS_COUNT - i,
{
    if i < 0 || i >= ALIAS_COUNT {
        Option::None
    } else if spec_kingdom_entry(i).0 == s {
        Option::Some(spec_kingdom_entry(i).1)
    } else {
        spec_lookup_kingdom(i + 1, s)
    }
}

/// First-match lookup in the stage table, from entry `i` on.
pub open spec fn spec_lookup_stage(i: int, s: Seq<char>) -> Option<Seq<char>>
    decreases STAGE_COUNT - i,
{
    if i < 0 || i >= STAGE_COUNT {
        Option::None
    } else if spec_stage_entry(i).0 == s {
        Option::Some(spec_stage_entry(i).1)
    } else {
        spec_lookup_stage(i + 1, s)
    }
}

/// The stages whose alias is `a` among entries `i..`, in table order.
pub open spec fn spec_stages_of_alias(i: int, a: Seq<char>) -> Seq<Seq<char>>
    decreases STAGE_COUNT - i,
{
    if i < 0 || i >= STAGE_COUNT {
        Seq::empty()
    } else if spec_stage_entry(i).1 == a {
        seq![spec_stage_entry(i).0] + spec_stages_of_alias(i + 1, a)
    } else {
        spec_stages_of_alias(i + 1, a)
    }
}

/// What the console makes of a stage argument: an alias means its home
/// stage; an exact stage name stands; a trailing `!` forces the name before
/// it; anything else is refused.
pub open spec fn spec_input2stage(s: Seq<char>) -> Option<Seq<char>> {
    if spec_lookup_alias(0, s) is Some {
        spec_lookup_alias(0, s)
    } else if spec_lookup_stage(0, s) is Some {
        Option::Some(s)
    } else if s.len() > 0 && s.last() == '!' {
        Option::Some(s.drop_last())
    } else {
        Option::None
    }
}

/// The kingdom a stage belongs to, through its alias.
pub open spec fn spec_stage2kingdom(s: Seq<char>) -> Option<Seq<char>> {
    match spec_lookup_stage(0, s) {
        Option::Some(alias) => spec_lookup_kingdom(0, alias),
        Option::None => Option::None,
    }
}

/// The stage tables.
pub struct Stages {}

impl Stages {
    /// Whether the input names a console alias.
    pub fn is_alias(input: &str) -> (r: bool)
        ensures
            r == (spec_lookup_alias(0, input@) is Some),
    {
        Stages::lookup_alias(input).is_some()
    }

    /// Whether the input names a known stage.
    pub fn is_stage(input: &str) -> (r: bool)
        ensures
            r == (spec_lookup_stage(0, input@) is Some),
    {
        Stages::lookup_stage(input).is_some()
    }

    /// The home stage of an alias.
    #[verifier::loop_isolation(false)]
    fn lookup_alias(input: &str) -> (r: Option<String>)
        ensures
            match spec_lookup_alias(0, input@) {
                Option::Some(v) => r matches Option::Some(s) && s@ == v,
                Option::None => r is None,
            },
    {
        let owned = String::from_str(input);
        let mut i: usize = 0;
        while i < ALIAS_COUNT
            invariant
                0 <= i <= ALIAS_COUNT,
                spec_lookup_alias(0, input@) == spec_lookup_alias(i as int, input@),
            decreases ALIAS_COUNT - i,
        {
            let entry = alias_entry(i);
            if entry.0.eq(&owned) {
                return Some(entry.1);
            }
            i = i + 1;
        }
        None
    }

    /// The kingdom of an alias.
    #[verifier::loop_isolation(false)]
    fn lookup_kingdom(alias: &String) -> (r: Option<String>)
        ensures
            match spec_lookup_kingdom(0, alias@) {
                Option::Some(v) => r matches Option::Some(s) && s@ == v,
                Option::None => r is None,
            },
    {
        let mut i: usize = 0;
        while i < ALIAS_COUNT
            invariant
                0 <= i <= ALIAS_COUNT,
                spec_lookup_kingdom(0, alias@) == spec_lookup_kingdom(i as int, alias@),
            decreases ALIAS_COUNT - i,
        {
            let entry = kingdom_entry(i);
            if entry.0.eq(alias) {
                return Some(entry.1);
            }
            i = i + 1;
        }
        None
    }

    /// The alias of a stage.
    #[verifier::loop_isolation(false)]
    fn lookup_stage(input: &str) -> (r: Option<String>)
        ensures
            match spec_lookup_stage(0, input@) {
                Option::Some(v) => r matches Option::Some(s) && s@ == v,
                Option::None => r is None,
            },
    {
        let owned = String::from_str(input);
        let mut i: usize = 0;
        while i < STAGE_COUNT
            invariant
                0 <= i <= STAGE_COUNT,
                spec_lookup_stage(0, input@) == spec_lookup_stage(i as int, input@),
            decreases STAGE_COUNT - i,
        {
            let entry = stage_entry(i);
            if entry.0.eq(&owned) {
                return Some(entry.1);
            }
            i = i + 1;
        }
        None
    }

    /// Resolve a console stage argument to a stage name.
    pub fn input2stage(input: &str) -> (r: Option<String>)
        ensures
            match spec_input2stage(input@) {
                Option::Some(v) => r matches Option::Some(s) && s@ == v,
                Option::None => r is None,
            },
    {
        match Stages::lookup_alias(input) {
            Some(stage) => {
                return Some(stage);
            },
            None => {},
        }
        if Stages::is_stage(input) {
            return Some(String::from_str(input));
        }
        let len = input.unicode_len();
        if len > 0 && input.get_char(len - 1) == '!' {
            let forced = input.substring_char(0, len - 1);
            proof {
                assert(input@.subrange(0, input@.len() - 1) =~= input@.drop_last());
            }
            return Some(String::from_str(forced));
        }
        None
    }

    /// The kingdom a stage belongs to.
    pub fn stage2kingdom(stage: &str) -> (r: Option<String>)
        ensures
            match spec_stage2kingdom(stage@) {
                Option::Some(v) => r matches Option::Some(s) && s@ == v,
                Option::None => r is None,
            },
    {
        match Stages::lookup_stage(stage) {
            Some(alias) => Stages::lookup_kingdom(&alias),
            None => None,
        }
    }

    /// The stages a console argument names: all stages of an alias, the one
    /// stage it resolves to otherwise, nothing when it resolves to nothing.
    #[verifier::loop_isolation(false)]
    pub fn stages_by_input(input: &str) -> (r: Vec<String>)
        ensures
            spec_lookup_alias(0, input@) is Some ==> r@.map_values(|s: String| s@)
                == spec_stages_of_alias(0, input@),
            spec_lookup_alias(0, input@) is None ==> (match spec_input2stage(input@) {
                Option::Some(v) => r@.len() == 1 && r@[0]@ == v,
                Option::None => r@.len() == 0,
            }),
    {
        if Stages::is_alias(input) {
            let owned = String::from_str(input);
            let mut out: Vec<String> = Vec::new();
            proof {
                assert(out@.map_values(|s: String| s@) =~= Seq::<Seq<char>>::empty());
            }
            let mut i: usize = 0;
            while i < STAGE_COUNT
                invariant
                    0 <= i <= STAGE_COUNT,
                    out@.map_values(|s: String| s@) + spec_stages_of_alias(i as int, input@)
                        == spec_stages_of_alias(0, input@),
                decreases STAGE_COUNT - i,
            {
                let entry = stage_entry(i);
                if entry.1.eq(&owned) {
                    let ghost pre = out@;
                    out.push(entry.0);
                    proof {
                        assert(out@.map_values(|s: String| s@) =~= pre.map_values(
                            |s: String| s@,
                        ).push(out@.last()@));
                        assert(pre.map_values(|s: String| s@).push(out@.last()@)
                            + spec_stages_of_alias(i + 1, input@) =~= pre.map_values(
                            |s: String| s@,
                        ) + (seq![spec_stage_entry(i as int).0] + spec_stages_of_alias(
                            i + 1,
                            input@,
                        )));
                    }
                }
                i = i + 1;
            }
            proof {
                assert(out@.map_values(|s: String| s@) + Seq::<Seq<char>>::empty()
                    =~= out@.map_values(|s: String| s@));
            }
            return out;
        }
        let mut out: Vec<String> = Vec::new();
        match Stages::input2stage(input) {
            Some(stage) => {
                out.push(stage);
            },
            None => {},
        }
        out
    }
}

} // verus!
