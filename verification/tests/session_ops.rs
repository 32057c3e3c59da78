use libtorrent_rasterbar::errors::LTError;
use libtorrent_rasterbar::ffi::{AddTorrentParams, InfoHash};
use libtorrent_rasterbar::session::{add_magnet_result, add_torrent_result, param_pairs, session_result};

fn sample_params() -> AddTorrentParams {
    AddTorrentParams {
        version: 2,
        name: "ubuntu.iso".to_string(),
        save_path: "/tmp/downloads".to_string(),
        info_hash: "aabb".to_string(),
        info_hashes: InfoHash { v1: "aabb".to_string(), v2: "ccdd".to_string() },
    }
}

#[test]
fn param_pairs_keep_every_setting_in_order() {
    let list = [("listen_interfaces", "0.0.0.0:6881"), ("enable_dht", "true"), ("user_agent", "x")];
    let pairs = param_pairs(&list);
    assert_eq!(pairs.len(), 3);
    assert_eq!(pairs[0].key, "listen_interfaces");
    assert_eq!(pairs[0].value, "0.0.0.0:6881");
    assert_eq!(pairs[1].key, "enable_dht");
    assert_eq!(pairs[1].value, "true");
    assert_eq!(pairs[2].key, "user_agent");
    assert_eq!(pairs[2].value, "x");
}

#[test]
fn param_pairs_of_no_settings_is_empty() {
    let list: [(&str, &str); 0] = [];
    assert!(param_pairs(&list).is_empty());
}

#[test]
fn param_pairs_keeps_repeated_keys() {
    let list = [("k", "1"), ("k", "2")];
    let pairs = param_pairs(&list);
    assert_eq!(pairs.len(), 2);
    assert_eq!((pairs[0].key, pairs[0].value), ("k", "1"));
    assert_eq!((pairs[1].key, pairs[1].value), ("k", "2"));
}

#[test]
fn session_result_passes_the_session_through() {
    let r = session_result::<u32>(Ok(7));
    assert_eq!(r, Ok(7));
}

#[test]
fn session_result_reports_creation_failure_with_message() {
    let r = session_result::<u32>(Err("bad setting".to_string()));
    assert_eq!(r, Err(LTError::FailedToCreateSession("bad setting".to_string())));
}

#[test]
fn add_torrent_result_passes_params_through() {
    let r = add_torrent_result(Ok(sample_params())).unwrap();
    assert_eq!(r.version, 2);
    assert_eq!(r.name, "ubuntu.iso");
    assert_eq!(r.save_path, "/tmp/downloads");
    assert_eq!(r.info_hashes.v2, "ccdd");
}

#[test]
fn add_torrent_result_reports_failure_with_message() {
    let r = add_torrent_result(Err("no such file".to_string()));
    assert_eq!(r.unwrap_err(), LTError::FailedToAddTorrent("no such file".to_string()));
}

#[test]
fn add_magnet_result_passes_params_through() {
    let r = add_magnet_result(Ok(sample_params())).unwrap();
    assert_eq!(r.info_hash, "aabb");
    assert_eq!(r.info_hashes.v1, "aabb");
}

#[test]
fn add_magnet_result_reports_failure_with_message() {
    let r = add_magnet_result(Err("invalid magnet".to_string()));
    assert_eq!(r.unwrap_err(), LTError::FailedToAddMagnet("invalid magnet".to_string()));
}
