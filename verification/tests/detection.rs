use chitchat_core::detect::detect_running_game;
use chitchat_core::detect::GameDetection;
use chitchat_core::snapshot::parse_tasklist_output;

fn snapshot(names: &[&str]) -> Vec<String> {
    names.iter().map(|n| n.to_string()).collect()
}

#[test]
fn known_game_is_detected_among_unrelated_processes() {
    let running = snapshot(&["svchost.exe", "explorer.exe", "cs2.exe", "bash"]);
    let result = detect_running_game(&running);
    assert_eq!(
        result,
        GameDetection::Known { game: "Counter-Strike 2".to_string(), executable: "cs2.exe".to_string() }
    );
}

#[test]
fn empty_snapshot_detects_nothing() {
    let running: Vec<String> = Vec::new();
    assert_eq!(detect_running_game(&running), GameDetection::NotDetected);
}

#[test]
fn unrelated_snapshot_detects_nothing() {
    let running = snapshot(&["svchost.exe", "explorer.exe", "bash"]);
    assert_eq!(detect_running_game(&running), GameDetection::NotDetected);
}

#[test]
fn catalog_order_breaks_ties() {
    // Both the ".exe" and the bare alias rows match; the earlier row wins.
    let running = snapshot(&["eldenring", "eldenring.exe"]);
    let result = detect_running_game(&running);
    assert_eq!(
        result,
        GameDetection::Known { game: "Elden Ring".to_string(), executable: "eldenring.exe".to_string() }
    );
}

#[test]
fn snapshot_order_does_not_matter() {
    let a = snapshot(&["r5apex.exe", "wow.exe"]);
    let b = snapshot(&["wow.exe", "r5apex.exe"]);
    // The catalog, not the snapshot, drives the scan.
    assert_eq!(detect_running_game(&a), detect_running_game(&b));
    assert_eq!(
        detect_running_game(&a),
        GameDetection::Known { game: "Apex Legends".to_string(), executable: "r5apex.exe".to_string() }
    );
}

#[test]
fn detection_from_listing_output_is_case_insensitive() {
    let text = "\"HaloInfinite.EXE\",\"1234\",\"Console\"\r\n\"Explorer.exe\",\"99\"\r\n";
    let running = parse_tasklist_output(text);
    let result = detect_running_game(&running);
    assert_eq!(
        result,
        GameDetection::Known {
            game: "Halo Infinite".to_string(),
            executable: "haloinfinite.exe".to_string()
        }
    );
}
