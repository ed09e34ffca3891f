use helium_console::ttn::{
    app_ids, delete_status, regional_endpoints, restrict_token, scoped_token, select_apps,
    AccountToken, App, Device, Discovery, Error, Probe, TtnDevice, TtnDeviceRaw, MAX_SCOPED_APPS,
};

fn ids(n: usize) -> Vec<String> {
    (0..n).map(|i| format!("app{}", i)).collect()
}

#[test]
fn scoped_exchange_with_eleven_apps_fails_first() {
    let r = restrict_token(AccountToken::new("secret".to_string()), &ids(11));
    assert_eq!(r.unwrap_err(), Error::ScopeLimitExceeded);
}

#[test]
fn scoped_exchange_names_each_app() {
    let r = restrict_token(AccountToken::new("secret".to_string()), &ids(MAX_SCOPED_APPS)).unwrap();
    assert_eq!(r.bearer, "secret");
    assert_eq!(r.scope.len(), 10);
    assert_eq!(r.scope[0], "apps:app0");
    assert_eq!(r.scope[9], "apps:app9");
    let r = restrict_token(AccountToken::new("t".to_string()), &vec![]).unwrap();
    assert!(r.scope.is_empty());
}

#[test]
fn scoped_token_needs_a_token_in_the_response() {
    assert_eq!(scoped_token(Some("abc".to_string())), Ok("abc".to_string()));
    assert_eq!(scoped_token(None), Err(Error::TokenNotFoundOrExpired));
}

fn apps() -> Vec<App> {
    vec![
        App { id: "a".to_string(), name: "A".to_string() },
        App { id: "b".to_string(), name: "B".to_string() },
    ]
}

#[test]
fn app_selection_by_index() {
    assert_eq!(app_ids(&apps()), vec!["a".to_string(), "b".to_string()]);
    assert_eq!(select_apps(&apps(), 0), Some(vec!["a".to_string(), "b".to_string()]));
    assert_eq!(select_apps(&apps(), 2), Some(vec!["b".to_string()]));
    assert_eq!(select_apps(&apps(), 3), None);
}

fn endpoints() -> Vec<String> {
    ["A", "B", "C", "D"].iter().map(|s| s.to_string()).collect()
}

fn request_url(p: &Probe) -> String {
    match p {
        Probe::Request(url) => url.clone(),
        other => panic!("expected a request, got {:?}", other),
    }
}

#[test]
fn discovery_stops_at_first_200() {
    let mut d = Discovery::new("app1".to_string(), endpoints());
    let mut contacted = vec![request_url(&d.current())];
    let statuses = [404u16, 500, 200];
    let mut last = d.current();
    for status in statuses {
        last = d.on_response(status, "{\"devices\":[]}");
        if let Probe::Request(url) = &last {
            contacted.push(url.clone());
        }
    }
    assert_eq!(
        contacted,
        vec![
            "A/applications/app1/devices".to_string(),
            "B/applications/app1/devices".to_string(),
            "C/applications/app1/devices".to_string(),
        ]
    );
    match last {
        Probe::Hit { endpoint, empty } => {
            assert_eq!(endpoint, "C");
            assert!(!empty);
        }
        other => panic!("expected a hit, got {:?}", other),
    }
    // Later reports change nothing: D is never asked.
    assert!(matches!(d.on_response(200, "{}"), Probe::Hit { ref endpoint, empty: false } if endpoint == "C"));
    assert!(matches!(d.current(), Probe::Hit { .. }));
}

#[test]
fn discovery_empty_object_means_no_devices() {
    let mut d = Discovery::new("app1".to_string(), endpoints());
    match d.on_response(200, "{}") {
        Probe::Hit { endpoint, empty } => {
            assert_eq!(endpoint, "A");
            assert!(empty);
        }
        other => panic!("expected a hit, got {:?}", other),
    }
}

#[test]
fn discovery_without_200_has_no_handler() {
    let mut d = Discovery::new("app1".to_string(), endpoints());
    for _ in 0..3 {
        assert!(matches!(d.on_response(404, ""), Probe::Request(_)));
    }
    assert!(matches!(d.on_response(404, ""), Probe::NoHandler));
    assert!(matches!(d.on_response(200, "{}"), Probe::NoHandler));
    let empty = Discovery::new("app1".to_string(), vec![]);
    assert!(matches!(empty.current(), Probe::NoHandler));
}

#[test]
fn regional_endpoints_in_order() {
    assert_eq!(
        regional_endpoints(),
        vec![
            "http://us-west.thethings.network:8084".to_string(),
            "http://eu.thethings.network:8084".to_string(),
            "http://asia-se.thethings.network:8084".to_string(),
            "http://brazil.thethings.network:8084".to_string(),
        ]
    );
}

fn lorawan(app_key: &str) -> Device {
    Device {
        app_eui: "0000000100000046".to_string(),
        dev_eui: "1234567890110000".to_string(),
        app_id: "app1".to_string(),
        dev_id: "dev1".to_string(),
        dev_addr: String::new(),
        nwk_s_key: String::new(),
        app_s_key: String::new(),
        app_key: app_key.to_string(),
        uses32_bit_f_cnt: true,
        activation_constraints: "otaa".to_string(),
    }
}

#[test]
fn source_device_text_and_urls() {
    let raw = TtnDeviceRaw {
        app_id: "app1".to_string(),
        dev_id: "dev1".to_string(),
        lorawan_device: lorawan("CB67C92DD5898D07872224202DED7E76"),
    };
    let d = TtnDevice::from_raw(raw, "http://eu.thethings.network:8084");
    assert_eq!(d.endpoint, "http://eu.thethings.network:8084");
    assert_eq!(d.appid(), "app1");
    assert_eq!(d.appkey(), "CB67C92DD5898D07872224202DED7E76");
    assert_eq!(d.appskey(), "");
    assert_eq!(
        d.get_simple_string(),
        "TtnDevice { app_eui: \"0000000100000046\", dev_eui: \"1234567890110000\", app_id: \"app1\", dev_id: \"dev1\", app_id: \"app1\"}"
    );
    assert_eq!(
        d.delete_url(),
        "http://eu.thethings.network:8084/applications/app1/devices/dev1"
    );
    let req = d.derive_new_device_request().unwrap();
    assert_eq!(req.name(), "dev1");
    assert_eq!(req.app_key(), "CB67C92DD5898D07872224202DED7E76");
}

#[test]
fn lorawan_record_translation() {
    let dev = lorawan("CB67C92DD5898D07872224202DED7E76");
    assert_eq!(
        dev.get_simple_string(),
        "TtnDevice { app_eui: \"0000000100000046\", dev_eui: \"1234567890110000\", app_id: \"app1\", dev_id: \"dev1\"}"
    );
    let req = dev.into_new_device_request().unwrap();
    assert_eq!(req.device.dev_eui(), "1234567890110000");
    let bad = lorawan("CB67");
    assert_eq!(
        bad.into_new_device_request().unwrap_err(),
        helium_console::Error::InvalidAppKey
    );
}

#[test]
fn source_delete_status() {
    assert_eq!(delete_status(200), Ok(()));
    assert_eq!(delete_status(404), Err(Error::DeviceNotFound));
    assert_eq!(Error::NoHandler.description(), "No handler servers are associated with App");
}
