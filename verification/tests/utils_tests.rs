use forte::errors::{FileLoadError, MIDILoadErrorKind};
use forte::midi_list::{map_midi_load_error, total_progress_ppm, validate_midi_file};
use forte::midi_pool::RenderStats;
use forte::sf_list::validate_soundfont_file;
use forte::utils::{
    bytes_to_filesize_str, check_for_updates, download_url, needs_update, release_filename,
    u64_to_string,
};

#[test]
fn decimal_rendering() {
    assert_eq!(u64_to_string(0), "0");
    assert_eq!(u64_to_string(7), "7");
    assert_eq!(u64_to_string(10), "10");
    assert_eq!(u64_to_string(90210), "90210");
    assert_eq!(u64_to_string(u64::MAX), "18446744073709551615");
}

#[test]
fn filesize_text() {
    assert_eq!(bytes_to_filesize_str(0), "0B");
    assert_eq!(bytes_to_filesize_str(999), "999B");
    assert_eq!(bytes_to_filesize_str(1000), "1.0KB");
    assert_eq!(bytes_to_filesize_str(1500), "1.5KB");
    assert_eq!(bytes_to_filesize_str(1549), "1.5KB");
    assert_eq!(bytes_to_filesize_str(1550), "1.6KB");
    assert_eq!(bytes_to_filesize_str(999_949), "999.9KB");
    assert_eq!(bytes_to_filesize_str(1_000_000), "1.0MB");
    assert_eq!(bytes_to_filesize_str(123_456_789), "123.5MB");
    assert_eq!(bytes_to_filesize_str(2_000_000_000), "2000.0MB");
}

#[test]
fn update_decision() {
    assert!(!needs_update(&"1.2.0".to_string(), &"1.2.0".to_string()));
    assert!(needs_update(&"1.2.0".to_string(), &"1.3.0".to_string()));
}

#[test]
fn release_asset_names() {
    assert_eq!(
        release_filename(&"linux".to_string(), &"x86_64".to_string()),
        "forte-linux-x86_64"
    );
    assert_eq!(
        release_filename(&"windows".to_string(), &"x86_64".to_string()),
        "forte-windows-x86_64.exe"
    );
    assert_eq!(
        download_url(&"forte-linux-x86_64".to_string()),
        "https://github.com/MyBlackMIDIScore/forte/releases/latest/download/forte-linux-x86_64"
    );
}

#[test]
fn update_check_decides_notice() {
    let current = "1.2.0".to_string();
    let os = "linux".to_string();
    let arch = "x86_64".to_string();

    // No tag in the feed: nothing to offer.
    assert!(check_for_updates(&current, None, None, &os, &arch).is_none());
    // The running version is the latest: nothing to offer.
    assert!(check_for_updates(&current, Some("1.2.0".to_string()), None, &os, &arch).is_none());

    let msg = check_for_updates(
        &current,
        Some("1.3.0".to_string()),
        Some("fixes".to_string()),
        &os,
        &arch,
    )
    .expect("a newer tag must offer an update");
    assert_eq!(msg.version, "1.3.0");
    assert_eq!(
        msg.url,
        "https://github.com/MyBlackMIDIScore/forte/releases/latest/download/forte-linux-x86_64"
    );
    assert_eq!(msg.body, "fixes");

    let msg = check_for_updates(&current, Some("2.0".to_string()), None, &os, &arch).unwrap();
    assert_eq!(msg.body, "");
}

#[test]
fn soundfont_file_checks() {
    assert!(matches!(
        validate_soundfont_file(false, Some("sfz".to_string()), None),
        Err(FileLoadError::FileNotFound)
    ));
    assert!(matches!(
        validate_soundfont_file(true, None, None),
        Err(FileLoadError::InvalidFormat)
    ));
    assert!(matches!(
        validate_soundfont_file(true, Some("sf2".to_string()), None),
        Err(FileLoadError::InvalidFormat)
    ));
    match validate_soundfont_file(true, Some("sfz".to_string()), Some("bad region".to_string())) {
        Err(FileLoadError::Corrupt(d)) => assert_eq!(d, "bad region"),
        _ => panic!("a failed parse must report corruption"),
    }
    assert!(validate_soundfont_file(true, Some("sfz".to_string()), None).is_ok());
}

#[test]
fn midi_file_checks() {
    assert!(matches!(
        validate_midi_file(false, Some("mid".to_string()), None),
        Err(FileLoadError::FileNotFound)
    ));
    assert!(matches!(
        validate_midi_file(true, Some("wav".to_string()), None),
        Err(FileLoadError::InvalidFormat)
    ));
    match validate_midi_file(true, Some("mid".to_string()), Some(MIDILoadErrorKind::CorruptChunks))
    {
        Err(FileLoadError::Corrupt(d)) => assert_eq!(d, "Corrupt chunks"),
        _ => panic!("a loader failure must report corruption"),
    }
    assert!(validate_midi_file(true, Some("mid".to_string()), None).is_ok());
}

#[test]
fn midi_load_error_wording() {
    match map_midi_load_error(MIDILoadErrorKind::FileTooBig) {
        FileLoadError::Corrupt(d) => assert_eq!(d, "MIDI file too big"),
        _ => panic!("wrong kind"),
    }
    match map_midi_load_error(MIDILoadErrorKind::FilesystemError("denied".to_string())) {
        FileLoadError::Corrupt(d) => assert_eq!(d, "Filesystem error: denied"),
        _ => panic!("wrong kind"),
    }
}

#[test]
fn aggregate_progress_is_the_mean() {
    let stats = vec![
        Some(RenderStats { time_micros: 5_000_000, voice_count: 3 }),
        None,
        Some(RenderStats { time_micros: 10_000_000, voice_count: 1 }),
    ];
    let lengths = vec![10_000_000, 10_000_000, 10_000_000];
    // Ratios are 0.5, 0 and 1.0; their mean is 0.5.
    assert_eq!(total_progress_ppm(&stats, &lengths), 500_000);
}
