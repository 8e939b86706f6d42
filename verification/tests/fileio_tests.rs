use vortex_gpu_audio::error::{FileIoError, VortexError};
use vortex_gpu_audio::fileio::format_detector::extension;
use vortex_gpu_audio::fileio::{
    AudioFileLoader, AudioFormat, FormatDetector, Playlist, PlaylistItem, PlaylistManager,
};

#[test]
fn test_wav_magic() {
    let magic = b"RIFF\x00\x00\x00\x00WAVE";
    assert_eq!(FormatDetector::detect_by_magic(magic), AudioFormat::Wav);
}

#[test]
fn test_flac_magic() {
    let magic = b"fLaC\x00\x00\x00\x00\x00\x00\x00\x00";
    assert_eq!(FormatDetector::detect_by_magic(magic), AudioFormat::Flac);
}

#[test]
fn test_dsd_dsf_magic() {
    let magic = b"DSD \x00\x00\x00\x00\x00\x00\x00\x00";
    assert_eq!(FormatDetector::detect_by_magic(magic), AudioFormat::DsdDsf);
}

#[test]
fn the_other_magic_numbers() {
    assert_eq!(FormatDetector::detect_by_magic(b"ID3\x04"), AudioFormat::Mp3);
    assert_eq!(FormatDetector::detect_by_magic(b"\xff\xfb\x90\x00"), AudioFormat::Mp3);
    assert_eq!(FormatDetector::detect_by_magic(b"\xff\xe0"), AudioFormat::Mp3);
    assert_eq!(FormatDetector::detect_by_magic(b"\xff\xdf"), AudioFormat::Unknown);
    assert_eq!(FormatDetector::detect_by_magic(b"OggS"), AudioFormat::Ogg);
    assert_eq!(FormatDetector::detect_by_magic(b"FRM8"), AudioFormat::DsdDff);
    assert_eq!(FormatDetector::detect_by_magic(b"MAC "), AudioFormat::Ape);
    assert_eq!(FormatDetector::detect_by_magic(b"RIFF\x00\x00\x00\x00AVI "), AudioFormat::Unknown);
    assert_eq!(FormatDetector::detect_by_magic(b"RIFF\x00\x00\x00\x00WAV"), AudioFormat::Unknown);
    assert_eq!(FormatDetector::detect_by_magic(b"fLa"), AudioFormat::Unknown);
    assert_eq!(FormatDetector::detect_by_magic(b""), AudioFormat::Unknown);
    assert_eq!(FormatDetector::detect_by_magic(b"\xff"), AudioFormat::Unknown);
}

#[test]
fn test_extension_detection() {
    let result = FormatDetector::detect_by_extension("test.flac");
    assert!(result.is_ok());
    assert_eq!(result.unwrap(), AudioFormat::Flac);
}

#[test]
fn every_extension_has_its_format() {
    let table = [
        ("a.wav", AudioFormat::Wav),
        ("a.wave", AudioFormat::Wav),
        ("a.flac", AudioFormat::Flac),
        ("a.mp3", AudioFormat::Mp3),
        ("a.aac", AudioFormat::Aac),
        ("a.m4a", AudioFormat::Aac),
        ("a.ogg", AudioFormat::Ogg),
        ("a.opus", AudioFormat::Opus),
        ("a.dsf", AudioFormat::DsdDsf),
        ("a.dff", AudioFormat::DsdDff),
        ("a.alac", AudioFormat::Alac),
        ("a.ape", AudioFormat::Ape),
        ("a.wv", AudioFormat::WavPack),
        ("/music/b.c/Song.FLAC", AudioFormat::Flac),
        ("x.tar.Mp3", AudioFormat::Mp3),
    ];
    for (path, format) in table {
        assert_eq!(FormatDetector::detect_by_extension(path).unwrap(), format);
    }
}

#[test]
fn paths_without_a_known_extension_are_unsupported() {
    match FormatDetector::detect_by_extension("/music/song") {
        Err(VortexError::FileIo(FileIoError::UnsupportedFormat { format, path })) => {
            assert_eq!(format, "No file extension");
            assert_eq!(path, "/music/song");
        }
        _ => panic!("accepted"),
    }
    match FormatDetector::detect_by_extension("song.XYZ") {
        Err(VortexError::FileIo(FileIoError::UnsupportedFormat { format, path })) => {
            assert_eq!(format, "xyz");
            assert_eq!(path, "song.XYZ");
        }
        _ => panic!("accepted"),
    }
    assert!(FormatDetector::detect_by_extension("/music.flac/song").is_err());
    assert!(FormatDetector::detect_by_extension(".flac").is_err());
    assert!(FormatDetector::detect_by_extension("..").is_err());
    assert!(FormatDetector::detect_by_extension("").is_err());
}

#[test]
fn extension_is_what_follows_the_last_dot_of_the_name() {
    assert_eq!(extension("a.b.c"), Some("c"));
    assert_eq!(extension("dir.d/a"), None);
    assert_eq!(extension("dir/.hidden"), None);
    assert_eq!(extension("dir/.hidden.txt"), Some("txt"));
    assert_eq!(extension("a."), Some(""));
    assert_eq!(extension(".."), None);
    assert_eq!(extension("..."), Some(""));
    assert_eq!(extension("/"), None);
    assert_eq!(extension("é.ö"), Some("ö"));
}

#[test]
fn magic_goes_before_the_extension() {
    assert_eq!(FormatDetector::detect_format(b"fLaC", "a.mp3").unwrap(), AudioFormat::Flac);
    assert_eq!(FormatDetector::detect_format(b"????", "a.mp3").unwrap(), AudioFormat::Mp3);
    assert!(FormatDetector::detect_format(b"????", "a").is_err());
}

#[test]
fn test_loader_creation() {
    let loader = AudioFileLoader::new();
    assert!(loader.is_format_supported(&AudioFormat::Wav));
    assert!(loader.is_format_supported(&AudioFormat::Flac));
}

#[test]
fn loader_decodes_eight_formats() {
    let loader = AudioFileLoader::new();
    for format in [
        AudioFormat::Wav,
        AudioFormat::Flac,
        AudioFormat::Mp3,
        AudioFormat::Aac,
        AudioFormat::DsdDsf,
        AudioFormat::DsdDff,
        AudioFormat::Alac,
        AudioFormat::Ape,
    ] {
        assert!(loader.is_format_supported(&format));
    }
    for format in [AudioFormat::Ogg, AudioFormat::Opus, AudioFormat::WavPack, AudioFormat::Unknown] {
        assert!(!loader.is_format_supported(&format));
    }
}

fn item(title: &str) -> PlaylistItem {
    PlaylistItem {
        id: title.to_lowercase(),
        path: format!("{}.flac", title),
        title: title.to_string(),
        duration_ms: 180_000,
    }
}

#[test]
fn test_playlist_creation() {
    let playlist = Playlist::new("My Playlist".to_string());
    assert_eq!(playlist.name, "My Playlist");
    assert_eq!(playlist.items.len(), 0);
    assert_eq!(playlist.id.len(), 36);
    assert!(playlist.current_index.is_none());
}

#[test]
fn test_add_item() {
    let mut playlist = Playlist::new("Test".to_string());
    playlist.add_item(item("Test Song"));
    assert_eq!(playlist.items.len(), 1);
    assert_eq!(playlist.items[0].title, "Test Song");
}

#[test]
fn playlist_items_keep_their_order() {
    let mut playlist = Playlist::new("Test".to_string());
    playlist.add_item(item("A"));
    playlist.add_item(item("B"));
    playlist.add_item(item("C"));
    assert!(playlist.current_item().is_none());
    playlist.current_index = Some(1);
    assert_eq!(playlist.current_item().unwrap().title, "B");
    assert_eq!(playlist.remove_item(0).unwrap().title, "A");
    assert_eq!(playlist.items.len(), 2);
    assert_eq!(playlist.items[0].title, "B");
    assert_eq!(playlist.current_item().unwrap().title, "C");
    assert!(playlist.remove_item(2).is_none());
    assert_eq!(playlist.items.len(), 2);
    playlist.current_index = Some(2);
    assert!(playlist.current_item().is_none());
}

#[test]
fn test_playlist_manager() {
    let mut manager = PlaylistManager::new();
    let id = manager.create_playlist("Test Playlist".to_string());

    assert!(manager.get_playlist(&id).is_some());
    assert_eq!(manager.get_playlist(&id).unwrap().name, "Test Playlist");
    assert!(manager.get_playlist("nobody").is_none());
    let second = manager.create_playlist("Second".to_string());
    assert_ne!(id, second);
    assert_eq!(manager.get_playlist(&second).unwrap().name, "Second");
    assert_eq!(manager.playlists().len(), 2);
    let again = PlaylistManager::from_playlists(vec![Playlist::new("x".into())]);
    assert_eq!(again.playlists().len(), 1);
}

#[test]
fn extensions_are_matched_letter_for_letter() {
    assert_eq!(FormatDetector::format_for_extension("flac"), Some(AudioFormat::Flac));
    assert_eq!(FormatDetector::format_for_extension("wave"), Some(AudioFormat::Wav));
    assert_eq!(FormatDetector::format_for_extension("m4a"), Some(AudioFormat::Aac));
    assert_eq!(FormatDetector::format_for_extension("wv"), Some(AudioFormat::WavPack));
    assert_eq!(FormatDetector::format_for_extension("FLAC"), None);
    assert_eq!(FormatDetector::format_for_extension("fla"), None);
    assert_eq!(FormatDetector::format_for_extension(""), None);
    assert_eq!(FormatDetector::format_for_extension("dsd"), None);
}

#[test]
fn a_playlist_keeps_the_identifier_it_is_given() {
    let playlist = Playlist::with_id("p-1".to_string(), "Evening".to_string());
    assert_eq!(playlist.id, "p-1");
    assert_eq!(playlist.name, "Evening");
    assert!(playlist.items.is_empty());
    assert!(playlist.current_index.is_none());
}
