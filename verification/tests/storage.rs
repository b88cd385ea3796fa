use lead_barry::configuration::settings::{
    debug_settings, NetworkSettings, Settings, WiFiApSettings, WiFiSettings, DEFAULT_AP_CHANNEL,
    DEFAULT_AP_IP,
};
use lead_barry::configuration::storage::{
    check_frame, frame_payload, initial_settings, ConfigurationStorage, StorageError,
};

#[test]
fn frame_appends_castagnoli_checksum() {
    let image = frame_payload(b"123456789", 64).unwrap();
    assert_eq!(&image[..9], b"123456789");
    // CRC-32/ISCSI check value 0xE3069283, least significant byte first
    assert_eq!(&image[9..], &[0x83, 0x92, 0x06, 0xE3]);
}

#[test]
fn framed_image_reads_back() {
    let payload = [1u8, 2, 3, 250, 0, 7];
    let mut image = frame_payload(&payload, 12).unwrap();
    assert_eq!(check_frame(&image, payload.len()), Ok(()));
    // whatever follows in the storage does not matter
    image.extend_from_slice(&[0xFF; 8]);
    assert_eq!(check_frame(&image, payload.len()), Ok(()));
}

#[test]
fn corrupted_image_is_refused() {
    let mut image = frame_payload(b"settings", 32).unwrap();
    image[3] ^= 0x01;
    assert_eq!(check_frame(&image, 8), Err(StorageError::Deserialization));
}

#[test]
fn truncated_image_is_refused() {
    let image = frame_payload(b"settings", 32).unwrap();
    assert_eq!(check_frame(&image[..10], 8), Err(StorageError::Deserialization));
    assert_eq!(check_frame(&image, 20), Err(StorageError::Deserialization));
}

#[test]
fn payload_too_large_for_storage() {
    assert_eq!(frame_payload(&[0u8; 10], 13), Err(StorageError::Serialization));
    assert!(frame_payload(&[0u8; 10], 14).is_ok());
    assert_eq!(frame_payload(&[0u8; 10], 5), Err(StorageError::Serialization));
}

#[test]
fn empty_payload_frames_checksum_of_nothing() {
    let image = frame_payload(&[], 4).unwrap();
    assert_eq!(image, vec![0, 0, 0, 0]);
    assert_eq!(check_frame(&image, 0), Ok(()));
}

#[test]
fn factory_settings() {
    let s = Settings::new();
    assert_eq!(s.settings_version, 1);
    assert_eq!(s.network_settings.wifi_settings.ssid, "");
    assert_eq!(s.network_settings.wifi_settings.password, "");
    let ap = &s.network_settings.wifi_ap_settings;
    assert_eq!(ap.ssid, "");
    assert_eq!(ap.password, None);
    assert_eq!(ap.channel, DEFAULT_AP_CHANNEL);
    assert_eq!(ap.ip, DEFAULT_AP_IP);
    assert_eq!(ap.prefix_len, 24);
    assert_eq!(debug_settings(), Some(Settings::new()));
}

#[test]
fn default_access_point_is_lead_barry() {
    let ap = WiFiApSettings::default();
    assert_eq!(ap.ssid, "LeadBarry");
    assert_eq!(ap.password, None);
    assert_eq!(ap.channel, 6);
    assert_eq!(ap.ip, 0xC0A8_0101);
}

#[test]
fn initial_settings_fall_back_to_factory_and_save() {
    let (s, save) = initial_settings(Err(StorageError::StorageRead));
    assert!(save);
    assert_eq!(s, Settings::new());
    let mut stored = Settings::new();
    stored.network_settings.wifi_settings.ssid = "home".to_string();
    let (s, save) = initial_settings(Ok(stored.clone()));
    assert!(!save);
    assert_eq!(s, stored);
}

#[test]
fn cache_returns_what_was_set() {
    let mut cache = ConfigurationStorage::new(Settings::new());
    let mut s = Settings::new();
    s.network_settings.wifi_settings = WiFiSettings { ssid: "net".to_string(), password: "pw".to_string() };
    cache.set_settings(s.clone());
    assert_eq!(cache.get_settings(), s);
    let mut net = NetworkSettings::new();
    net.wifi_settings.ssid = "other".to_string();
    cache.set_network_settings(net.clone());
    assert_eq!(cache.settings().network_settings, net);
    assert_eq!(cache.settings().settings_version, 1);
}

#[test]
fn cache_keeps_settings_when_loading_fails() {
    let mut cache = ConfigurationStorage::new(Settings::new());
    assert_eq!(cache.apply_loaded(Err(StorageError::StorageErase)), Err(StorageError::StorageErase));
    assert_eq!(*cache.settings(), Settings::new());
    let mut s = Settings::new();
    s.settings_version = 2;
    assert_eq!(cache.apply_loaded(Ok(s.clone())), Ok(s.clone()));
    assert_eq!(*cache.settings(), s);
}
