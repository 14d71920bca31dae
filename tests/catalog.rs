use barcode_soundboard::SoundCatalog;

fn sample() -> SoundCatalog {
    let mut c = SoundCatalog::new("/sounds".to_string());
    c.insert("007".to_string(), "laugh.mp3".to_string());
    c.insert("42".to_string(), "answer.ogg".to_string());
    c
}

#[test]
fn lookup_is_exact() {
    let c = sample();
    assert_eq!(c.lookup(&"007".to_string()), Some(&"laugh.mp3".to_string()));
    assert_eq!(c.lookup(&"42".to_string()), Some(&"answer.ogg".to_string()));
    assert_eq!(c.lookup(&"7".to_string()), None);
    assert_eq!(c.lookup(&"0070".to_string()), None);
    assert_eq!(c.lookup(&String::new()), None);
}

#[test]
fn codes_are_case_sensitive() {
    let mut c = SoundCatalog::new("/s".to_string());
    c.insert("ab".to_string(), "x.wav".to_string());
    assert_eq!(c.lookup(&"AB".to_string()), None);
    assert_eq!(c.lookup(&"ab".to_string()), Some(&"x.wav".to_string()));
}

#[test]
fn insert_replaces_an_existing_code() {
    let mut c = sample();
    assert_eq!(c.len(), 2);
    c.insert("007".to_string(), "cry.mp3".to_string());
    assert_eq!(c.len(), 2);
    assert_eq!(c.lookup(&"007".to_string()), Some(&"cry.mp3".to_string()));
    assert_eq!(c.lookup(&"42".to_string()), Some(&"answer.ogg".to_string()));
}

#[test]
fn new_catalog_is_empty() {
    let c = SoundCatalog::new("/sounds".to_string());
    assert_eq!(c.len(), 0);
    assert_eq!(c.sounds_path(), "/sounds");
    assert_eq!(c.resolve("007"), None);
}

#[test]
fn resolve_joins_the_sounds_directory() {
    let c = sample();
    assert_eq!(c.resolve("007"), Some("/sounds/laugh.mp3".to_string()));
    assert_eq!(c.resolve("42"), Some("/sounds/answer.ogg".to_string()));
}

#[test]
fn resolve_trims_the_code() {
    let c = sample();
    assert_eq!(c.resolve(" 007\n"), Some("/sounds/laugh.mp3".to_string()));
    assert_eq!(c.resolve("\t42 "), Some("/sounds/answer.ogg".to_string()));
}

#[test]
fn resolve_misses_unknown_and_empty_codes() {
    let c = sample();
    assert_eq!(c.resolve(""), None);
    assert_eq!(c.resolve("   "), None);
    assert_eq!(c.resolve("008"), None);
}

#[test]
fn resolve_with_trailing_slash_directory() {
    let mut c = SoundCatalog::new("/sounds/".to_string());
    c.insert("1".to_string(), "a.wav".to_string());
    assert_eq!(c.resolve("1"), Some("/sounds/a.wav".to_string()));
}

#[test]
fn from_entries_enters_pairs_in_order() {
    let pairs = vec![
        ("1".to_string(), "one.wav".to_string()),
        ("2".to_string(), "two.wav".to_string()),
        ("1".to_string(), "uno.wav".to_string()),
    ];
    let c = SoundCatalog::from_entries("/snd".to_string(), &pairs);
    assert_eq!(c.len(), 2);
    assert_eq!(c.lookup(&"1".to_string()), Some(&"uno.wav".to_string()));
    assert_eq!(c.lookup(&"2".to_string()), Some(&"two.wav".to_string()));
    assert_eq!(c.sounds_path(), "/snd");
}

#[test]
fn from_entries_of_nothing() {
    let c = SoundCatalog::from_entries("/snd".to_string(), &Vec::new());
    assert_eq!(c.len(), 0);
    assert_eq!(c.resolve(""), None);
}
