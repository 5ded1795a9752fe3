use mac_control::address::SocketAddress;
use mac_control::abuse_control::DAY_SECONDS;
use mac_control::abuse_control::IP_BLOCK_DUR;
use mac_control::abuse_control::IP_CHANGE_DUR;
use mac_control::abuse_control::IP_CHANGE_DUR_X2;
use mac_control::location::database_url;
use mac_control::location::Host;
use mac_control::record::MacControl;
use mac_control::record::MacControlInfo;
use mac_control::store::StoredBinding;

#[test]
fn the_default_record_is_blank() {
    let record = MacControl::default();
    assert_eq!(record.mac_id, "");
    assert_eq!(record.allowed_id, "");
    assert_eq!(record.socket_addr, SocketAddress::V4 { octets: 0, port: 0 });
    assert!(record.is_blank());
}

#[test]
fn the_unspecified_address_is_all_zero() {
    assert_eq!(SocketAddress::new_unspecified(), SocketAddress::V4 { octets: 0, port: 0 });
}

#[test]
fn a_record_from_a_row_carries_the_pair_and_no_address() {
    let record = MacControl::from_stored(StoredBinding {
        mac_id: "dev-1".to_string(),
        allowed_id: "peer-9".to_string(),
    });
    assert_eq!(record.mac_id, "dev-1");
    assert_eq!(record.allowed_id, "peer-9");
    assert_eq!(record.socket_addr, SocketAddress::V4 { octets: 0, port: 0 });
    assert!(!record.is_blank());
}

#[test]
fn a_record_from_a_row_without_a_device_is_blank() {
    let record = MacControl::from_stored(StoredBinding {
        mac_id: String::new(),
        allowed_id: "peer-9".to_string(),
    });
    assert!(record.is_blank());
    assert_eq!(record.allowed_id, "peer-9");
}

#[test]
fn device_details_default_to_no_address_and_clone_as_they_are() {
    let info = MacControlInfo::default();
    assert_eq!(info.ip, "");
    let info = MacControlInfo { ip: "192.168.0.1".to_string() };
    assert_eq!(info.clone().ip, "192.168.0.1");
}

#[test]
fn the_lifetimes_are_in_seconds() {
    assert_eq!(IP_CHANGE_DUR, 180);
    assert_eq!(IP_CHANGE_DUR_X2, 360);
    assert_eq!(IP_BLOCK_DUR, 60);
    assert_eq!(DAY_SECONDS, 86400);
}

#[test]
fn a_configured_database_url_is_taken_as_it_stands() {
    let configured = Some("postgres://db/hbbs".to_string());
    assert_eq!(database_url(configured.clone(), &Host::Unix), "postgres://db/hbbs");
    let windows = Host::Windows { install_dir: Some("C:\\rendezvous".to_string()) };
    assert_eq!(database_url(configured, &windows), "postgres://db/hbbs");
    assert_eq!(database_url(Some(String::new()), &Host::Unix), "");
}

#[test]
fn the_default_database_lies_in_the_working_directory_on_unix() {
    assert_eq!(database_url(None, &Host::Unix), "./db_v2.sqlite3");
}

#[test]
fn the_default_database_lies_in_the_installation_directory_on_windows() {
    let host = Host::Windows { install_dir: Some("C:\\rendezvous".to_string()) };
    assert_eq!(database_url(None, &host), "C:\\rendezvous\\db_v2.sqlite3");
    let host = Host::Windows { install_dir: Some(".".to_string()) };
    assert_eq!(database_url(None, &host), ".\\db_v2.sqlite3");
}

#[test]
fn the_default_database_is_the_bare_file_without_an_installation_directory() {
    let host = Host::Windows { install_dir: None };
    assert_eq!(database_url(None, &host), "db_v2.sqlite3");
}
