//! Stage table and game-mode conversion tests.

use smo_server::game_mode::GameMode;
use smo_server::stages::Stages;

#[test]
fn alias_resolves_to_home_stage() {
    assert_eq!(Stages::input2stage("cascade").unwrap(), "WaterfallWorldHomeStage");
    assert_eq!(Stages::input2stage("cap").unwrap(), "CapWorldHomeStage");
    assert_eq!(Stages::input2stage("odyssey").unwrap(), "HomeShipInsideStage");
}

#[test]
fn exact_stage_name_stands() {
    assert_eq!(Stages::input2stage("SandWorldShopStage").unwrap(), "SandWorldShopStage");
}

#[test]
fn bang_forces_unknown_names() {
    assert_eq!(Stages::input2stage("MadeUpStage!").unwrap(), "MadeUpStage");
    assert!(Stages::input2stage("MadeUpStage").is_none());
}

#[test]
fn alias_and_stage_predicates() {
    assert!(Stages::is_alias("metro"));
    assert!(!Stages::is_alias("CityWorldHomeStage"));
    assert!(Stages::is_stage("CityWorldHomeStage"));
    assert!(!Stages::is_stage("metro"));
}

#[test]
fn stage_to_kingdom() {
    assert_eq!(Stages::stage2kingdom("CapWorldTowerStage").unwrap(), "Cap Kingdom");
    assert_eq!(Stages::stage2kingdom("SeaWorldHomeStage").unwrap(), "Seaside Kingdom");
    assert_eq!(Stages::stage2kingdom("HomeShipInsideStage").unwrap(), "Odyssey");
    assert!(Stages::stage2kingdom("nowhere").is_none());
}

#[test]
fn stages_by_alias_in_table_order() {
    let cloud = Stages::stages_by_input("cloud");
    assert_eq!(cloud, vec!["CloudWorldHomeStage", "FukuwaraiKuriboStage", "Cube2DExStage"]);
    let one = Stages::stages_by_input("RollingExStage");
    assert_eq!(one, vec!["RollingExStage"]);
    let none = Stages::stages_by_input("nothing");
    assert!(none.is_empty());
}

#[test]
fn game_mode_nibble_conversions() {
    for n in 0u8..16 {
        assert_eq!(GameMode::to_u8(GameMode::from_u8(n)), n);
    }
    assert_eq!(GameMode::from_u8(200), GameMode::NoneMode);
}

#[test]
fn game_mode_signed_conversions() {
    assert_eq!(GameMode::to_i8(GameMode::NoneMode), -1);
    assert_eq!(GameMode::to_i8(GameMode::Sardines), 2);
    assert_eq!(GameMode::from_i8(-1), GameMode::NoneMode);
    assert_eq!(GameMode::from_i8(1), GameMode::HideAndSeek);
}

#[test]
fn game_mode_names_parse() {
    assert_eq!(GameMode::from_str("HideAndSeek").unwrap(), GameMode::HideAndSeek);
    assert_eq!(GameMode::from_str("-1").unwrap(), GameMode::NoneMode);
    assert_eq!(GameMode::from_str("3").unwrap(), GameMode::FreezeTag);
    assert!(GameMode::from_str("15").is_err());
    assert!(GameMode::from_str("tag").is_err());
}
