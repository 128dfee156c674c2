use chitchat_core::heuristic::detect_unknown_game;
use chitchat_core::heuristic::is_unknown_candidate;
use chitchat_core::heuristic::suggested_name_from_executable;
use chitchat_core::heuristic::UnknownGame;

fn snapshot(names: &[&str]) -> Vec<String> {
    names.iter().map(|n| n.to_string()).collect()
}

#[test]
fn suggested_name_strips_noise_and_title_cases() {
    assert_eq!(suggested_name_from_executable("cod-win64-shipping.exe"), "Cod");
}

#[test]
fn suggested_name_falls_back_when_nothing_remains() {
    assert_eq!(suggested_name_from_executable("---.exe"), "Unknown Game");
}

#[test]
fn suggested_name_joins_several_tokens() {
    assert_eq!(suggested_name_from_executable("star_raider_client.exe"), "Star Raider");
}

#[test]
fn deny_listed_name_is_never_unknown() {
    // "battle.net.exe" carries the "battle" hint but is deny-listed.
    let running = snapshot(&["battle.net.exe"]);
    assert_eq!(detect_unknown_game(&running), None);
    assert!(!is_unknown_candidate("battle.net.exe"));
}

#[test]
fn infra_marker_rejects_auxiliary_processes() {
    // "helper" marks an auxiliary process even though "game" hints at a game.
    let running = snapshot(&["gameoverlayhelper.exe"]);
    assert_eq!(detect_unknown_game(&running), None);
}

#[test]
fn missing_suffix_rejects_candidate() {
    let running = snapshot(&["gameclient"]);
    assert_eq!(detect_unknown_game(&running), None);
}

#[test]
fn catalog_claimed_name_is_not_unknown() {
    // "rustclient.exe" contains the "client" hint but belongs to the catalog.
    let running = snapshot(&["rustclient.exe"]);
    assert_eq!(detect_unknown_game(&running), None);
}

#[test]
fn first_candidate_wins_and_gets_a_name() {
    let running = snapshot(&["svchost.exe", "mygame-win64-shipping.exe", "othergame.exe"]);
    let result = detect_unknown_game(&running);
    assert_eq!(
        result,
        Some(UnknownGame {
            executable: "mygame-win64-shipping.exe".to_string(),
            suggested_name: "Mygame".to_string()
        })
    );
}
