use std::path::PathBuf;
use v_voice::paths::{data_dir, data_dir_under, DataPath, DataRoot, Inventory};

#[test]
fn the_data_directory_stands_under_the_users() {
    let dir = data_dir_under(Some(PathBuf::from("/home/u/.local/share")), "v-voice");
    assert!(matches!(dir.root, DataRoot::Platform(p) if p == PathBuf::from("/home/u/.local/share")));
    assert_eq!(dir.folder, "v-voice");
}

#[test]
fn without_a_data_directory_the_working_directory_serves() {
    let dir = data_dir_under(None, "v-voice");
    assert!(matches!(dir.root, DataRoot::WorkingDirectory));
    assert_eq!(dir.folder, "v-voice");
}

#[test]
fn the_data_directory_is_the_systems() {
    let dir = data_dir("v-voice");
    assert_eq!(dir.folder, "v-voice");
    match (dir.root, dirs::data_dir()) {
        (DataRoot::Platform(p), Some(q)) => assert_eq!(p, q),
        (DataRoot::WorkingDirectory, None) => {}
        _ => panic!("the roots differ"),
    }
}

#[test]
fn paths_are_joined_and_compared() {
    let dir = DataPath::of("models", "zipformer-vi");
    assert_eq!(dir.parts, vec!["models", "zipformer-vi"]);
    let file = dir.join("tokens.txt");
    assert_eq!(file.parts, vec!["models", "zipformer-vi", "tokens.txt"]);
    assert_eq!(file.clone().parts, file.parts);
    assert!(file.is(&file.clone()));
    assert!(!file.is(&dir));
    assert!(!dir.is(&DataPath::of("models", "granite-speech")));
}

#[test]
fn an_inventory_has_what_was_added() {
    let mut seen = Inventory::new();
    let a = DataPath::of("bin", "whisper-cli.exe");
    let b = DataPath::of("bin", "whisper-server.exe");
    assert!(!seen.has(&a));
    seen.add(a.clone());
    assert!(seen.has(&a));
    assert!(!seen.has(&b));
    seen.add(b.clone());
    seen.add(a.clone());
    assert!(seen.has(&a) && seen.has(&b));
}
