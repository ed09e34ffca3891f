use helium_console::codec::validate_hex;
use helium_console::types::name_with_suffix;
use helium_console::{
    DeviceLabel, Error, GetDevice, Label, NewDevice, NewDeviceRequest, NewLabel, NewLabelRequest,
};

const APP_EUI: &str = "0000000100000046";
const DEV_EUI: &str = "1234567890110000";
const APP_KEY: &str = "CB67C92DD5898D07872224202DED7E76";

#[test]
fn get_device_keeps_valid_input() {
    let d = GetDevice::from_user_input(APP_EUI.to_string(), APP_KEY.to_string(), DEV_EUI.to_string())
        .unwrap();
    assert_eq!(d.app_eui(), APP_EUI);
    assert_eq!(d.app_key(), APP_KEY);
    assert_eq!(d.dev_eui(), DEV_EUI);
}

#[test]
fn get_device_reports_first_bad_field() {
    let bad = "0011".to_string();
    let r = GetDevice::from_user_input(bad.clone(), bad.clone(), bad.clone());
    assert_eq!(r.unwrap_err(), Error::InvalidAppEui);
    let r = GetDevice::from_user_input(APP_EUI.to_string(), bad.clone(), bad.clone());
    assert_eq!(r.unwrap_err(), Error::InvalidAppKey);
    let r = GetDevice::from_user_input(APP_EUI.to_string(), APP_KEY.to_string(), bad);
    assert_eq!(r.unwrap_err(), Error::InvalidDevEui);
    let r = GetDevice::from_user_input("zz".repeat(8), APP_KEY.to_string(), DEV_EUI.to_string());
    assert_eq!(r.unwrap_err(), Error::InvalidAppEui);
}

#[test]
fn new_device_keeps_valid_input() {
    let d = NewDevice::from_user_input(
        APP_EUI.to_string(),
        APP_KEY.to_string(),
        DEV_EUI.to_string(),
        "dev1".to_string(),
    )
    .unwrap();
    assert_eq!(d.app_eui(), APP_EUI);
    assert_eq!(d.app_key(), APP_KEY);
    assert_eq!(d.dev_eui(), DEV_EUI);
    assert_eq!(d.name(), "dev1");
}

#[test]
fn new_device_rejects_short_app_key() {
    let r = NewDevice::from_user_input(
        APP_EUI.to_string(),
        "CB67C92DD5898D07".to_string(),
        DEV_EUI.to_string(),
        "dev1".to_string(),
    );
    assert_eq!(r.unwrap_err(), Error::InvalidAppKey);
}

#[test]
fn new_device_request_wraps_device() {
    let r = NewDeviceRequest::from_user_input(
        APP_EUI.to_string(),
        APP_KEY.to_string(),
        DEV_EUI.to_string(),
        "dev1".to_string(),
    )
    .unwrap();
    assert_eq!(r.device.name(), "dev1");
    let r = NewDeviceRequest::from_user_input(
        APP_EUI.to_string(),
        APP_KEY.to_string(),
        "12".to_string(),
        "dev1".to_string(),
    );
    assert_eq!(r.unwrap_err(), Error::InvalidDevEui);
}

#[test]
fn name_suffix_is_last_four_dev_eui_chars_upper() {
    assert_eq!(name_with_suffix("sensor", "1234567890abcdef"), "sensor_CDEF");
    assert_eq!(name_with_suffix("", "ab"), "_AB");
}

#[test]
fn generated_credentials_are_valid_and_name_follows_dev_eui() {
    let d = NewDevice::with_generated_credentials(APP_EUI.to_string(), "sensor").unwrap();
    assert_eq!(d.app_eui(), APP_EUI);
    assert_eq!(validate_hex(d.app_key(), 16), Ok(()));
    assert_eq!(validate_hex(d.dev_eui(), 8), Ok(()));
    let tail = d.dev_eui()[12..].to_uppercase();
    assert_eq!(d.name(), &format!("sensor_{}", tail));
}

#[test]
fn generated_credentials_need_a_valid_app_eui() {
    let r = NewDevice::with_generated_credentials("0001".to_string(), "sensor");
    assert_eq!(r.unwrap_err(), Error::InvalidAppEui);
}

#[test]
fn label_requests_carry_the_name() {
    assert_eq!(NewLabel::from_string("APP1").name, "APP1");
    assert_eq!(NewLabelRequest::from_string(&"APP1".to_string()).label.name, "APP1");
    let l = Label { id: "id-1".to_string(), name: "APP1".to_string() };
    assert_eq!(l.id(), "id-1");
    assert_eq!(l.name(), "APP1");
}

#[test]
fn device_label_needs_a_uuid() {
    let id = "6c3e9a4c-1b7d-4f7e-9a57-2b1f0f3d2e11".to_string();
    let l = DeviceLabel::from_uuid(id.clone()).unwrap();
    assert_eq!(l.get_uuid(), &id);
    assert_eq!(DeviceLabel::from_uuid("label".to_string()).unwrap_err(), Error::InvalidUuid);
}

#[test]
fn error_descriptions() {
    assert_eq!(
        Error::NewDevice422.description(),
        "Failed Creating Device! Device with identical credentials already exists"
    );
    assert_eq!(
        Error::InvalidAppEui.description(),
        "Invalid AppEui input. Must be 8 bytes represented in hex (\"0123456789ABCDEF\")"
    );
    assert_eq!(
        Error::UnauthorizedApi.description(),
        "Failed to connect to Helium API server. Unauthorized"
    );
}
