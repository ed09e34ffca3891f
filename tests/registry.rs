use helium_console::client::{
    attach_label_status, create_device_status, create_label_status, delete_device_status,
    read_status, LabelCache, LabelStep, Removal, DEFAULT_BASE_URL, DEFAULT_TIMEOUT,
};
use helium_console::{Config, Error, GetDevice, Label};

#[test]
fn config_defaults() {
    let c = Config::new("key".to_string());
    assert_eq!(c.key, "key");
    assert_eq!(c.base_url, "https://console.helium.com");
    assert_eq!(c.base_url, DEFAULT_BASE_URL);
    assert_eq!(c.request_timeout, 120);
    assert_eq!(DEFAULT_TIMEOUT, 120);
    let c = Config::new_with_url("key".to_string(), "http://localhost:4000");
    assert_eq!(c.base_url, "http://localhost:4000");
    assert_eq!(c.request_timeout, 120);
}

#[test]
fn read_statuses() {
    assert_eq!(read_status(200), Ok(()));
    assert_eq!(read_status(401), Err(Error::UnauthorizedApi));
    assert_eq!(read_status(404), Err(Error::HttpErrorApi));
    assert_eq!(read_status(500), Err(Error::HttpErrorApi));
}

#[test]
fn create_device_statuses() {
    assert_eq!(create_device_status(201), Ok(()));
    assert_eq!(create_device_status(200), Err(Error::NewDeviceApi));
    assert_eq!(create_device_status(401), Err(Error::UnauthorizedApi));
    assert_eq!(create_device_status(422), Err(Error::NewDevice422));
    assert_eq!(create_device_status(500), Err(Error::NewDeviceApi));
}

#[test]
fn delete_device_statuses() {
    assert_eq!(delete_device_status(200), Ok(Removal::Deleted));
    assert_eq!(delete_device_status(404), Ok(Removal::NotFound));
    assert_eq!(delete_device_status(401), Err(Error::UnauthorizedApi));
    assert_eq!(delete_device_status(503), Err(Error::HttpErrorApi));
}

#[test]
fn label_statuses() {
    assert_eq!(create_label_status(201), Ok(()));
    assert_eq!(create_label_status(422), Err(Error::NewLabel422));
    assert_eq!(create_label_status(400), Err(Error::NewLabelApi));
    assert_eq!(attach_label_status(200), Ok(()));
    assert_eq!(attach_label_status(201), Ok(()));
    assert_eq!(attach_label_status(404), Err(Error::NewDeviceLabelApi));
}

#[test]
fn lookup_query_path_names_the_triple() {
    let g = GetDevice::from_user_input(
        "0000000100000046".to_string(),
        "CB67C92DD5898D07872224202DED7E76".to_string(),
        "1234567890110000".to_string(),
    )
    .unwrap();
    assert_eq!(
        g.query_path(),
        "api/v1/devices?dev_eui=1234567890110000&app_eui=0000000100000046&app_key=CB67C92DD5898D07872224202DED7E76"
    );
}

fn label(id: &str, name: &str) -> Label {
    Label { id: id.to_string(), name: name.to_string() }
}

#[test]
fn label_cache_fetches_once_then_creates() {
    let mut cache = LabelCache::new();
    assert!(!cache.is_fetched());
    assert!(matches!(cache.next_step("app1"), LabelStep::Fetch));
    cache.fill(vec![label("id-other", "OTHER")]);
    assert!(cache.is_fetched());
    match cache.next_step("app1") {
        LabelStep::Create(l) => assert_eq!(l.name, "APP1"),
        other => panic!("unexpected {:?}", other),
    }
    cache.record(label("id-app1", "APP1"));
    match cache.next_step("App1") {
        LabelStep::Known(id) => assert_eq!(id, "id-app1"),
        other => panic!("unexpected {:?}", other),
    }
    match cache.next_step("other") {
        LabelStep::Known(id) => assert_eq!(id, "id-other"),
        other => panic!("unexpected {:?}", other),
    }
}

#[test]
fn label_cache_later_entries_win() {
    let mut cache = LabelCache::new();
    cache.fill(vec![label("old", "A"), label("new", "A")]);
    assert_eq!(cache.lookup(&"A".to_string()), Some("new".to_string()));
    cache.record(label("newest", "A"));
    assert_eq!(cache.lookup(&"A".to_string()), Some("newest".to_string()));
    assert_eq!(cache.lookup(&"B".to_string()), None);
}

#[test]
fn label_cache_known_before_fetch() {
    let mut cache = LabelCache::new();
    cache.record(label("id-x", "X"));
    match cache.next_step("x") {
        LabelStep::Known(id) => assert_eq!(id, "id-x"),
        other => panic!("unexpected {:?}", other),
    }
    assert!(matches!(cache.next_step("y"), LabelStep::Fetch));
}
