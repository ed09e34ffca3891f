use vstd::prelude::*;

use crate::codec::{
    is_hex_of_len, is_uuid, random_hex, upper_of, uppercase, uuid_accepts, validate_hex,
};
use crate::errors::Error;
use vstd::string::{StrSliceExecFns, StringExecFns};

verus! {

/// The outcome of checking a credential triple, field by field in the order
/// AppEui, AppKey, DevEui; the first field that fails is the one reported.
pub open spec fn credentials_check(app_eui: Seq<char>, app_key: Seq<char>, dev_eui: Seq<char>) -> Result<(), Error> {
    if !is_hex_of_len(app_eui, 8) {
        Err(Error::InvalidAppEui)
    } else if !is_hex_of_len(app_key, 16) {
        Err(Error::InvalidAppKey)
    } else if !is_hex_of_len(dev_eui, 8) {
        Err(Error::InvalidDevEui)
    } else {
        Ok(())
    }
}

/// Checks a credential triple: an 8-byte AppEui, a 16-byte AppKey and an
/// 8-byte DevEui, each in hex.
pub fn check_credentials(app_eui: &str, app_key: &str, dev_eui: &str) -> (r: Result<(), Error>)
    ensures
        r == credentials_check(app_eui@, app_key@, dev_eui@),
{
    if validate_hex(app_eui, 8).is_err() {
        return Err(Error::InvalidAppEui);
    }
    if validate_hex(app_key, 16).is_err() {
        return Err(Error::InvalidAppKey);
    }
    if validate_hex(dev_eui, 8).is_err() {
        return Err(Error::InvalidDevEui);
    }
    Ok(())
}

/// A device as the registry stores it.
#[derive(Clone, Debug)]
pub struct Device {
    pub app_eui: String,
    pub app_key: String,
    pub dev_eui: String,
    pub id: String,
    pub name: String,
    pub organization_id: String,
    pub oui: usize,
}

impl Device {
    pub fn id(&self) -> (r: &String)
        ensures
            r == &self.id,
    {
        &self.id
    }

    pub fn app_eui(&self) -> (r: &String)
        ensures
            r == &self.app_eui,
    {
        &self.app_eui
    }

    pub fn dev_eui(&self) -> (r: &String)
        ensures
            r == &self.dev_eui,
    {
        &self.dev_eui
    }

    pub fn app_key(&self) -> (r: &String)
        ensures
            r == &self.app_key,
    {
        &self.app_key
    }

    /// A fresh random DevEui: 8 random bytes in hex.
    pub fn random_dev_eui() -> (r: String)
        ensures
            is_hex_of_len(r@, 8),
    {
        random_hex(8)
    }

    /// A fresh random AppKey: 16 random bytes in hex.
    pub fn random_app_key() -> (r: String)
        ensures
            is_hex_of_len(r@, 16),
    {
        random_hex(16)
    }
}

/// The credential triple by which the registry looks a device up.
#[derive(Debug)]
pub struct GetDevice {
    app_eui: String,
    app_key: String,
    dev_eui: String,
}

impl GetDevice {
    #[verifier::type_invariant]
    closed spec fn well_formed(self) -> bool {
        credentials_check(self.app_eui@, self.app_key@, self.dev_eui@) is Ok
    }

    pub closed spec fn spec_app_eui(&self) -> Seq<char> {
        self.app_eui@
    }

    pub closed spec fn spec_app_key(&self) -> Seq<char> {
        self.app_key@
    }

    pub closed spec fn spec_dev_eui(&self) -> Seq<char> {
        self.dev_eui@
    }

    /// Builds a lookup from operator input, rejecting the first malformed field.
    pub fn from_user_input(
        app_eui: String,
        app_key: String,
        dev_eui: String,
    ) -> (r: Result<GetDevice, Error>)
        ensures
            match r {
                Ok(d) => credentials_check(app_eui@, app_key@, dev_eui@) is Ok && d.spec_app_eui()
                    == app_eui@ && d.spec_app_key() == app_key@ && d.spec_dev_eui() == dev_eui@,
                Err(e) => credentials_check(app_eui@, app_key@, dev_eui@) == Err::<(), Error>(e),
            },
    {
        match check_credentials(app_eui.as_str(), app_key.as_str(), dev_eui.as_str()) {
            Ok(()) => Ok(GetDevice { app_eui, app_key, dev_eui }),
            Err(e) => Err(e),
        }
    }

    pub fn app_eui(&self) -> (r: &String)
        ensures
            r@ == self.spec_app_eui(),
    {
        &self.app_eui
    }

    pub fn dev_eui(&self) -> (r: &String)
        ensures
            r@ == self.spec_dev_eui(),
    {
        &self.dev_eui
    }

    pub fn app_key(&self) -> (r: &String)
        ensures
            r@ == self.spec_app_key(),
    {
        &self.app_key
    }
}

/// The last `n` characters of a text, or all of it where it is shorter.
pub open spec fn last_chars(s: Seq<char>, n: nat) -> Seq<char> {
    if s.len() <= n {
        s
    } else {
        s.subrange(s.len() - n, s.len() as int)
    }
}

/// A device name made of a chosen prefix, an underscore and the last four
/// characters of the DevEui in upper case.
pub open spec fn suffixed_name(prefix: Seq<char>, dev_eui: Seq<char>) -> Seq<char> {
    prefix + "_"@ + upper_of(last_chars(dev_eui, 4))
}

/// Names a device after a prefix and its DevEui.
pub fn name_with_suffix(prefix: &str, dev_eui: &str) -> (r: String)
    ensures
        r@ == suffixed_name(prefix@, dev_eui@),
{
    let n = dev_eui.unicode_len();
    let from: usize = if n > 4 {
        n - 4
    } else {
        0
    };
    let tail = dev_eui.substring_char(from, n);
    assert(tail@ == last_chars(dev_eui@, 4));
    let upper = uppercase(tail);
    let mut r = String::from_str(prefix);
    r.append("_");
    r.append(upper.as_str());
    r
}

/// A request to create a device in the registry. Its credentials always pass
/// the checks of `credentials_check`.
#[derive(Debug)]
pub struct NewDevice {
    app_eui: String,
    app_key: String,
    dev_eui: String,
    name: String,
}

impl NewDevice {
    #[verifier::type_invariant]
    closed spec fn well_formed(self) -> bool {
        credentials_check(self.app_eui@, self.app_key@, self.dev_eui@) is Ok
    }

    pub closed spec fn spec_app_eui(&self) -> Seq<char> {
        self.app_eui@
    }

    pub closed spec fn spec_app_key(&self) -> Seq<char> {
        self.app_key@
    }

    pub closed spec fn spec_dev_eui(&self) -> Seq<char> {
        self.dev_eui@
    }

    pub closed spec fn spec_name(&self) -> Seq<char> {
        self.name@
    }

    /// Builds a creation request from operator input, rejecting the first
    /// malformed field.
    pub fn from_user_input(
        app_eui: String,
        app_key: String,
        dev_eui: String,
        name: String,
    ) -> (r: Result<NewDevice, Error>)
        ensures
            match r {
                Ok(d) => credentials_check(app_eui@, app_key@, dev_eui@) is Ok && d.spec_app_eui()
                    == app_eui@ && d.spec_app_key() == app_key@ && d.spec_dev_eui() == dev_eui@
                    && d.spec_name() == name@,
                Err(e) => credentials_check(app_eui@, app_key@, dev_eui@) == Err::<(), Error>(e),
            },
    {
        match check_credentials(app_eui.as_str(), app_key.as_str(), dev_eui.as_str()) {
            Ok(()) => Ok(NewDevice { app_eui, app_key, dev_eui, name }),
            Err(e) => Err(e),
        }
    }

    /// Builds a creation request for an AppEui with a random DevEui and AppKey,
    /// named after `prefix` and the new DevEui.
    pub fn with_generated_credentials(app_eui: String, prefix: &str) -> (r: Result<NewDevice, Error>)
        ensures
            match r {
                Ok(d) => {
                    &&& is_hex_of_len(app_eui@, 8)
                    &&& d.spec_app_eui() == app_eui@
                    &&& is_hex_of_len(d.spec_app_key(), 16)
                    &&& is_hex_of_len(d.spec_dev_eui(), 8)
                    &&& d.spec_name() == suffixed_name(prefix@, d.spec_dev_eui())
                },
                Err(e) => !is_hex_of_len(app_eui@, 8) && e == Error::InvalidAppEui,
            },
    {
        let app_key = Device::random_app_key();
        let dev_eui = Device::random_dev_eui();
        let name = name_with_suffix(prefix, dev_eui.as_str());
        NewDevice::from_user_input(app_eui, app_key, dev_eui, name)
    }

    pub fn app_eui(&self) -> (r: &String)
        ensures
            r@ == self.spec_app_eui(),
    {
        &self.app_eui
    }

    pub fn app_key(&self) -> (r: &String)
        ensures
            r@ == self.spec_app_key(),
    {
        &self.app_key
    }

    pub fn dev_eui(&self) -> (r: &String)
        ensures
            r@ == self.spec_dev_eui(),
    {
        &self.dev_eui
    }

    pub fn name(&self) -> (r: &String)
        ensures
            r@ == self.spec_name(),
    {
        &self.name
    }
}

/// A creation request wrapped as the registry's `device` envelope.
#[derive(Debug)]
pub struct NewDeviceRequest {
    pub device: NewDevice,
}

impl NewDeviceRequest {
    /// Builds the envelope from operator input, rejecting the first malformed field.
    pub fn from_user_input(
        app_eui: String,
        app_key: String,
        dev_eui: String,
        name: String,
    ) -> (r: Result<NewDeviceRequest, Error>)
        ensures
            match r {
                Ok(req) => credentials_check(app_eui@, app_key@, dev_eui@) is Ok
                    && req.device.spec_app_eui() == app_eui@ && req.device.spec_app_key()
                    == app_key@ && req.device.spec_dev_eui() == dev_eui@
                    && req.device.spec_name() == name@,
                Err(e) => credentials_check(app_eui@, app_key@, dev_eui@) == Err::<(), Error>(e),
            },
    {
        match NewDevice::from_user_input(app_eui, app_key, dev_eui, name) {
            Ok(device) => Ok(NewDeviceRequest { device }),
            Err(e) => Err(e),
        }
    }
}

/// A request to create a label.
#[derive(Clone, Debug)]
pub struct NewLabel {
    pub name: String,
}

impl NewLabel {
    pub fn from_string(string: &str) -> (r: NewLabel)
        ensures
            r.name@ == string@,
    {
        NewLabel { name: String::from_str(string) }
    }
}

/// A label as the registry stores it.
#[derive(Clone, Debug)]
pub struct Label {
    pub id: String,
    pub name: String,
}

impl Label {
    pub fn id(&self) -> (r: &String)
        ensures
            r == &self.id,
    {
        &self.id
    }

    pub fn name(&self) -> (r: &String)
        ensures
            r == &self.name,
    {
        &self.name
    }
}

/// The name part of a label-creation envelope.
#[derive(Clone, Debug)]
pub struct LabelRequest {
    pub name: String,
}

/// A label creation wrapped as the registry's `label` envelope.
#[derive(Clone, Debug)]
pub struct NewLabelRequest {
    pub label: LabelRequest,
}

impl NewLabelRequest {
    pub fn from_string(string: &String) -> (r: NewLabelRequest)
        ensures
            r.label.name@ == string@,
    {
        NewLabelRequest { label: LabelRequest { name: string.clone() } }
    }
}

/// Checks that a registry identifier is a UUID.
pub fn validate_uuid_input(id: &str) -> (r: Result<(), Error>)
    ensures
        r is Ok <==> uuid_accepts(id@),
        r is Err ==> r == Err::<(), Error>(Error::InvalidUuid),
{
    if is_uuid(id) {
        Ok(())
    } else {
        Err(Error::InvalidUuid)
    }
}

/// The body that attaches a label to a device: the label's identifier,
/// always a UUID.
#[derive(Debug)]
pub struct DeviceLabel {
    label: String,
}

impl DeviceLabel {
    #[verifier::type_invariant]
    closed spec fn well_formed(self) -> bool {
        uuid_accepts(self.label@)
    }

    pub closed spec fn spec_uuid(&self) -> Seq<char> {
        self.label@
    }

    pub fn from_uuid(label: String) -> (r: Result<DeviceLabel, Error>)
        ensures
            r is Ok <==> uuid_accepts(label@),
            match r {
                Ok(l) => l.spec_uuid() == label@,
                Err(e) => e == Error::InvalidUuid,
            },
    {
        match validate_uuid_input(label.as_str()) {
            Ok(()) => Ok(DeviceLabel { label }),
            Err(e) => Err(e),
        }
    }

    pub fn get_uuid(&self) -> (r: &String)
        ensures
            r@ == self.spec_uuid(),
    {
        &self.label
    }
}

} // verus!
