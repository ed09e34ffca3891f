use vstd::prelude::*;

use crate::decision::same_text;
use crate::types::{credentials_check, NewDevice, NewDeviceRequest};
use vstd::string::StringExecFns;

verus! {

/// Errors of the network operator's account and device servers.
#[derive(Debug, Clone, Copy, PartialEq, Eq, Structural)]
pub enum Error {
    NoHandler,
    DeviceNotFound,
    CodeNotFound,
    TokenNotFoundOrExpired,
    ScopeLimitExceeded,
}

impl Error {
    /// The operator-facing message of this error.
    pub fn description(&self) -> (r: &'static str)
        ensures
            r@ == match *self {
                Error::NoHandler => "No handler servers are associated with App"@,
                Error::DeviceNotFound => "Device not found for delete"@,
                Error::CodeNotFound => "Authorization code not found on TTN server"@,
                Error::TokenNotFoundOrExpired => "Token not found or expired"@,
                Error::ScopeLimitExceeded => "A scoped token can name at most 10 applications"@,
            },
    {
        match self {
            Error::NoHandler => "No handler servers are associated with App",
            Error::DeviceNotFound => "Device not found for delete",
            Error::CodeNotFound => "Authorization code not found on TTN server",
            Error::TokenNotFoundOrExpired => "Token not found or expired",
            Error::ScopeLimitExceeded => "A scoped token can name at most 10 applications",
        }
    }
}

/// An application of the operator account.
#[derive(Clone, Debug)]
pub struct App {
    pub id: String,
    pub name: String,
}

/// The identifiers of a list of applications, in order.
pub fn app_ids(apps: &Vec<App>) -> (r: Vec<String>)
    ensures
        r@.len() == apps@.len(),
        forall|i: int| 0 <= i < apps@.len() ==> (#[trigger] r@[i])@ == apps@[i].id@,
{
    let mut r: Vec<String> = Vec::new();
    let mut i: usize = 0;
    while i < apps.len()
        invariant
            i <= apps@.len(),
            r@.len() == i,
            forall|j: int| 0 <= j < i ==> (#[trigger] r@[j])@ == apps@[j].id@,
        decreases apps@.len() - i,
    {
        r.push(apps[i].id.clone());
        i += 1;
    }
    r
}

/// The applications picked by a menu index: 0 picks all of them, `i` the
/// i-th counting from 1; `None` where no application has that index.
pub fn select_apps(apps: &Vec<App>, index: usize) -> (r: Option<Vec<String>>)
    ensures
        index == 0 ==> (r matches Some(ids) && ids@.len() == apps@.len() && forall|i: int|
            0 <= i < apps@.len() ==> (#[trigger] ids@[i])@ == apps@[i].id@),
        1 <= index <= apps@.len() ==> (r matches Some(ids) && ids@.len() == 1 && ids@[0]@
            == apps@[index - 1].id@),
        index > apps@.len() ==> r is None,
{
    if index == 0 {
        Some(app_ids(apps))
    } else if index <= apps.len() {
        let mut ids: Vec<String> = Vec::new();
        ids.push(apps[index - 1].id.clone());
        Some(ids)
    } else {
        None
    }
}

/// The bearer credential of the whole account, obtained from a one-time
/// authorization code. It is given up when it is exchanged.
#[derive(Debug)]
pub struct AccountToken {
    secret: String,
}

impl AccountToken {
    pub closed spec fn spec_secret(&self) -> Seq<char> {
        self.secret@
    }

    pub fn new(secret: String) -> (r: AccountToken)
        ensures
            r.spec_secret() == secret@,
    {
        AccountToken { secret }
    }

    pub fn secret(&self) -> (r: &String)
        ensures
            r@ == self.spec_secret(),
    {
        &self.secret
    }
}

/// The most applications that one scoped token can name.
pub const MAX_SCOPED_APPS: usize = 10;

/// The scope entry that grants access to one application.
pub open spec fn app_scope(id: Seq<char>) -> Seq<char> {
    "apps:"@ + id
}

/// A token-restriction request: the account token to present and the scope
/// entries to restrict it to.
#[derive(Debug)]
pub struct TokenRestriction {
    pub bearer: String,
    pub scope: Vec<String>,
}

/// Turns the account token into a restriction request naming each application;
/// more than ten applications are refused before anything is sent.
pub fn restrict_token(token: AccountToken, app_ids: &Vec<String>) -> (r: Result<TokenRestriction, Error>)
    ensures
        r is Err <==> app_ids@.len() > MAX_SCOPED_APPS,
        r is Err ==> r == Err::<TokenRestriction, Error>(Error::ScopeLimitExceeded),
        r matches Ok(req) ==> {
            &&& req.bearer@ == token.spec_secret()
            &&& req.scope@.len() == app_ids@.len()
            &&& forall|i: int| 0 <= i < app_ids@.len() ==> (#[trigger] req.scope@[i])@ == app_scope(app_ids@[i]@)
        },
{
    if app_ids.len() > MAX_SCOPED_APPS {
        return Err(Error::ScopeLimitExceeded);
    }
    let mut scope: Vec<String> = Vec::new();
    let mut i: usize = 0;
    while i < app_ids.len()
        invariant
            i <= app_ids@.len(),
            scope@.len() == i,
            forall|j: int| 0 <= j < i ==> (#[trigger] scope@[j])@ == app_scope(app_ids@[j]@),
        decreases app_ids@.len() - i,
    {
        let mut entry = String::from_str("apps:");
        entry.append(app_ids[i].as_str());
        scope.push(entry);
        i += 1;
    }
    Ok(TokenRestriction { bearer: token.secret, scope })
}

/// The scoped token from the restriction response, where the response
/// carried one.
pub fn scoped_token(response_token: Option<String>) -> (r: Result<String, Error>)
    ensures
        match response_token {
            Some(t) => r == Ok::<String, Error>(t),
            None => r == Err::<String, Error>(Error::TokenNotFoundOrExpired),
        },
{
    match response_token {
        Some(t) => Ok(t),
        None => Err(Error::TokenNotFoundOrExpired),
    }
}

/// A device record as the operator's device servers report it.
#[derive(Clone, Debug)]
pub struct Device {
    pub app_eui: String,
    pub dev_eui: String,
    pub app_id: String,
    pub dev_id: String,
    pub dev_addr: String,
    pub nwk_s_key: String,
    pub app_s_key: String,
    pub app_key: String,
    pub uses32_bit_f_cnt: bool,
    pub activation_constraints: String,
}

impl Device {
    /// The registry creation request for this device, in the registry's
    /// `device` envelope, or the first credential field that fails its check.
    pub fn into_new_device_request(self) -> (r: Result<NewDeviceRequest, crate::errors::Error>)
        ensures
            match r {
                Ok(req) => credentials_check(self.app_eui@, self.app_key@, self.dev_eui@) is Ok
                    && req.device.spec_app_eui() == self.app_eui@ && req.device.spec_app_key()
                    == self.app_key@ && req.device.spec_dev_eui() == self.dev_eui@
                    && req.device.spec_name() == self.dev_id@,
                Err(e) => credentials_check(self.app_eui@, self.app_key@, self.dev_eui@) == Err::<
                    (),
                    crate::errors::Error,
                >(e),
            },
    {
        NewDeviceRequest::from_user_input(self.app_eui, self.app_key, self.dev_eui, self.dev_id)
    }

    /// The text that identifies this device in messages.
    pub fn get_simple_string(&self) -> (r: String)
        ensures
            r@ == "TtnDevice { app_eui: \""@ + self.app_eui@ + "\", dev_eui: \""@ + self.dev_eui@
                + "\", app_id: \""@ + self.app_id@ + "\", dev_id: \""@ + self.dev_id@ + "\"}"@,
    {
        let mut r = String::from_str("TtnDevice { app_eui: \"");
        r.append(self.app_eui.as_str());
        r.append("\", dev_eui: \"");
        r.append(self.dev_eui.as_str());
        r.append("\", app_id: \"");
        r.append(self.app_id.as_str());
        r.append("\", dev_id: \"");
        r.append(self.dev_id.as_str());
        r.append("\"}");
        r
    }
}

/// One entry of a device server's device list.
#[derive(Clone, Debug)]
pub struct TtnDeviceRaw {
    pub app_id: String,
    pub dev_id: String,
    pub lorawan_device: Device,
}

/// A device of the operator account with the endpoint that serves it.
#[derive(Clone, Debug)]
pub struct TtnDevice {
    pub app_id: String,
    pub dev_id: String,
    pub lorawan_device: Device,
    pub endpoint: String,
}

/// The registry creation request built from a source device: its own
/// credentials, named after its device id.
pub open spec fn derived_request(d: TtnDevice, r: Result<NewDevice, crate::errors::Error>) -> bool {
    let dev = d.lorawan_device;
    match r {
        Ok(req) => credentials_check(dev.app_eui@, dev.app_key@, dev.dev_eui@) is Ok
            && req.spec_app_eui() == dev.app_eui@ && req.spec_app_key() == dev.app_key@
            && req.spec_dev_eui() == dev.dev_eui@ && req.spec_name() == dev.dev_id@,
        Err(e) => credentials_check(dev.app_eui@, dev.app_key@, dev.dev_eui@) == Err::<(), crate::errors::Error>(e),
    }
}

/// The text that identifies a source device in messages.
pub open spec fn simple_string(d: TtnDevice) -> Seq<char> {
    let dev = d.lorawan_device;
    "TtnDevice { app_eui: \""@ + dev.app_eui@ + "\", dev_eui: \""@ + dev.dev_eui@
        + "\", app_id: \""@ + dev.app_id@ + "\", dev_id: \""@ + dev.dev_id@ + "\", app_id: \""@
        + d.app_id@ + "\"}"@
}

/// The device server URL that deletes a source device.
pub open spec fn device_url(endpoint: Seq<char>, app_id: Seq<char>, dev_id: Seq<char>) -> Seq<char> {
    endpoint + "/applications/"@ + app_id + "/devices/"@ + dev_id
}

impl TtnDevice {
    pub fn from_raw(raw: TtnDeviceRaw, endpoint: &str) -> (r: TtnDevice)
        ensures
            r.app_id == raw.app_id,
            r.dev_id == raw.dev_id,
            r.lorawan_device == raw.lorawan_device,
            r.endpoint@ == endpoint@,
    {
        TtnDevice {
            app_id: raw.app_id,
            dev_id: raw.dev_id,
            lorawan_device: raw.lorawan_device,
            endpoint: String::from_str(endpoint),
        }
    }

    /// The registry creation request for this device, or the first credential
    /// field that fails its check.
    pub fn derive_new_device_request(&self) -> (r: Result<NewDevice, crate::errors::Error>)
        ensures
            derived_request(*self, r),
    {
        NewDevice::from_user_input(
            self.lorawan_device.app_eui.clone(),
            self.lorawan_device.app_key.clone(),
            self.lorawan_device.dev_eui.clone(),
            self.lorawan_device.dev_id.clone(),
        )
    }

    pub fn appid(&self) -> (r: &String)
        ensures
            r == &self.app_id,
    {
        &self.app_id
    }

    pub fn appkey(&self) -> (r: &String)
        ensures
            r == &self.lorawan_device.app_key,
    {
        &self.lorawan_device.app_key
    }

    pub fn appskey(&self) -> (r: &String)
        ensures
            r == &self.lorawan_device.app_s_key,
    {
        &self.lorawan_device.app_s_key
    }

    pub fn get_simple_string(&self) -> (r: String)
        ensures
            r@ == simple_string(*self),
    {
        let dev = &self.lorawan_device;
        let mut r = String::from_str("TtnDevice { app_eui: \"");
        r.append(dev.app_eui.as_str());
        r.append("\", dev_eui: \"");
        r.append(dev.dev_eui.as_str());
        r.append("\", app_id: \"");
        r.append(dev.app_id.as_str());
        r.append("\", dev_id: \"");
        r.append(dev.dev_id.as_str());
        r.append("\", app_id: \"");
        r.append(self.app_id.as_str());
        r.append("\"}");
        r
    }

    /// Where to send the request that deletes this device from the source.
    pub fn delete_url(&self) -> (r: String)
        ensures
            r@ == device_url(self.endpoint@, self.app_id@, self.dev_id@),
    {
        let mut r = String::from_str(self.endpoint.as_str());
        r.append("/applications/");
        r.append(self.app_id.as_str());
        r.append("/devices/");
        r.append(self.dev_id.as_str());
        r
    }
}

/// What a source delete status means.
pub fn delete_status(status: u16) -> (r: Result<(), Error>)
    ensures
        status == 200 ==> r is Ok,
        status != 200 ==> r == Err::<(), Error>(Error::DeviceNotFound),
{
    if status == 200 {
        Ok(())
    } else {
        Err(Error::DeviceNotFound)
    }
}

/// The body with which a device server says that it holds the application
/// but no device of it.
pub const NULL_JSON: &'static str = "{}";

/// The operator's regional device servers, in the order in which they are
/// tried.
pub fn regional_endpoints() -> (r: Vec<String>)
    ensures
        r@.len() == 4,
        r@[0]@ == "http://us-west.thethings.network:8084"@,
        r@[1]@ == "http://eu.thethings.network:8084"@,
        r@[2]@ == "http://asia-se.thethings.network:8084"@,
        r@[3]@ == "http://brazil.thethings.network:8084"@,
{
    let mut r: Vec<String> = Vec::new();
    r.push(String::from_str("http://us-west.thethings.network:8084"));
    r.push(String::from_str("http://eu.thethings.network:8084"));
    r.push(String::from_str("http://asia-se.thethings.network:8084"));
    r.push(String::from_str("http://brazil.thethings.network:8084"));
    r
}

/// The URL that lists an application's devices on one device server.
pub open spec fn devices_url(endpoint: Seq<char>, app_id: Seq<char>) -> Seq<char> {
    endpoint + "/applications/"@ + app_id + "/devices"@
}

/// Progress of discovery over `n` endpoints: the position of the endpoint
/// asked now or next, and the position of the one that answered 200, if any.
pub open spec fn discovery_step(n: nat, next: nat, hit: Option<nat>, status: u16) -> (nat, Option<nat>) {
    if hit is Some || next >= n {
        (next, hit)
    } else if status == 200 {
        (next, Some(next))
    } else {
        ((next + 1) as nat, None)
    }
}

/// Whether a request is outstanding in a discovery state.
pub open spec fn discovery_pending(n: nat, state: (nat, Option<nat>)) -> bool {
    state.1 is None && state.0 < n
}

/// The discovery state after the responses with `statuses`, from the start.
pub open spec fn discovery_run(n: nat, statuses: Seq<u16>) -> (nat, Option<nat>)
    decreases statuses.len(),
{
    if statuses.len() == 0 {
        (0, None)
    } else {
        let prev = discovery_run(n, statuses.drop_last());
        discovery_step(n, prev.0, prev.1, statuses.last())
    }
}

/// The endpoint positions whose responses `statuses` are: a response counts
/// where it answered an outstanding request.
pub open spec fn discovery_probes(n: nat, statuses: Seq<u16>) -> Seq<nat>
    decreases statuses.len(),
{
    if statuses.len() == 0 {
        Seq::empty()
    } else {
        let prev = discovery_run(n, statuses.drop_last());
        if discovery_pending(n, prev) {
            discovery_probes(n, statuses.drop_last()).push(prev.0)
        } else {
            discovery_probes(n, statuses.drop_last())
        }
    }
}

/// The first `m` positions, in order.
pub open spec fn positions(m: nat) -> Seq<nat> {
    Seq::new(m, |i: int| i as nat)
}

proof fn lemma_discovery_misses(n: nat, statuses: Seq<u16>)
    requires
        statuses.len() <= n,
        forall|j: int| 0 <= j < statuses.len() ==> statuses[j] != 200,
    ensures
        discovery_run(n, statuses) == (statuses.len(), None::<nat>),
        discovery_probes(n, statuses) == positions(statuses.len()),
    decreases statuses.len(),
{
    if statuses.len() > 0 {
        let prev = statuses.drop_last();
        lemma_discovery_misses(n, prev);
        assert(positions(prev.len()).push(prev.len()) =~= positions(statuses.len()));
    } else {
        assert(positions(0) =~= Seq::<nat>::empty());
    }
}

/// Discovery tries the endpoints in their order and stops at the first that
/// answers 200: when the response to endpoint `k` is the first 200, the
/// responses went to endpoints `0..=k` in that order, endpoint `k` is the one
/// found, and no later endpoint is asked, whatever else is reported.
pub proof fn lemma_first_responder_wins(n: nat, statuses: Seq<u16>, k: nat)
    requires
        k < n,
        k < statuses.len(),
        statuses[k as int] == 200,
        forall|j: int| 0 <= j < k ==> statuses[j] != 200,
    ensures
        discovery_run(n, statuses) == (k, Some(k)),
        discovery_probes(n, statuses) == positions(k + 1),
    decreases statuses.len(),
{
    let prev = statuses.drop_last();
    if statuses.len() == k + 1 {
        lemma_discovery_misses(n, prev);
        assert(positions(k).push(k) =~= positions(k + 1));
    } else {
        lemma_first_responder_wins(n, prev, k);
    }
}

/// When no endpoint answers 200, every endpoint is asked once, in order, and
/// discovery ends without a device server.
pub proof fn lemma_no_handler(n: nat, statuses: Seq<u16>)
    requires
        statuses.len() >= n,
        forall|j: int| 0 <= j < n ==> statuses[j] != 200,
    ensures
        discovery_run(n, statuses) == (n, None::<nat>),
        discovery_probes(n, statuses) == positions(n),
    decreases statuses.len(),
{
    if statuses.len() == n {
        lemma_discovery_misses(n, statuses);
    } else {
        lemma_no_handler(n, statuses.drop_last());
    }
}

/// What discovery asks for next.
#[derive(Debug)]
pub enum Probe {
    /// Send an authenticated device-list request to this URL.
    Request(String),
    /// This endpoint holds the application; `empty` when it reported no
    /// devices, otherwise its response body is the device list.
    Hit { endpoint: String, empty: bool },
    /// No endpoint holds the application.
    NoHandler,
}

/// Finding the device server of one application by asking a fixed, ordered
/// list of endpoints one at a time.
pub struct Discovery {
    app_id: String,
    endpoints: Vec<String>,
    next: usize,
    hit: Option<usize>,
    empty: bool,
}

impl Discovery {
    #[verifier::type_invariant]
    closed spec fn well_formed(self) -> bool {
        self.hit matches Some(i) ==> i < self.endpoints@.len()
    }

    pub closed spec fn spec_app_id(&self) -> Seq<char> {
        self.app_id@
    }

    pub closed spec fn spec_endpoints(&self) -> Seq<String> {
        self.endpoints@
    }

    /// Position of the endpoint asked now or next.
    pub closed spec fn spec_next(&self) -> nat {
        self.next as nat
    }

    /// Position of the endpoint that answered 200, if any.
    pub closed spec fn spec_hit(&self) -> Option<nat> {
        match self.hit {
            Some(i) => Some(i as nat),
            None => None,
        }
    }

    /// Whether the endpoint found reported no devices.
    pub closed spec fn spec_empty(&self) -> bool {
        self.empty
    }

    /// Whether `r` is the probe that this state asks for.
    pub open spec fn probe_is(&self, r: Probe) -> bool {
        let eps = self.spec_endpoints();
        match self.spec_hit() {
            Some(i) => r matches Probe::Hit { endpoint, empty } && i < eps.len() && endpoint@
                == eps[i as int]@ && empty == self.spec_empty(),
            None => if self.spec_next() < eps.len() {
                r matches Probe::Request(url) && url@ == devices_url(
                    eps[self.spec_next() as int]@,
                    self.spec_app_id(),
                )
            } else {
                r is NoHandler
            },
        }
    }

    pub fn new(app_id: String, endpoints: Vec<String>) -> (r: Discovery)
        ensures
            r.spec_app_id() == app_id@,
            r.spec_endpoints() == endpoints@,
            r.spec_next() == 0,
            r.spec_hit() is None,
    {
        Discovery { app_id, endpoints, next: 0, hit: None, empty: false }
    }

    /// The probe that this state asks for.
    pub fn current(&self) -> (r: Probe)
        ensures
            self.probe_is(r),
    {
        proof {
            use_type_invariant(self);
        }
        match self.hit {
            Some(i) => {
                if i < self.endpoints.len() {
                    Probe::Hit { endpoint: self.endpoints[i].clone(), empty: self.empty }
                } else {
                    Probe::NoHandler
                }
            },
            None => {
                if self.next < self.endpoints.len() {
                    let mut url = self.endpoints[self.next].clone();
                    url.append("/applications/");
                    url.append(self.app_id.as_str());
                    url.append("/devices");
                    Probe::Request(url)
                } else {
                    Probe::NoHandler
                }
            },
        }
    }

    /// Takes the response to the outstanding request: a 200 ends discovery at
    /// that endpoint, with no devices where the body is the empty object; any
    /// other status moves on to the next endpoint. A response when nothing is
    /// outstanding changes nothing.
    pub fn on_response(&mut self, status: u16, body: &str) -> (r: Probe)
        ensures
            (final(self).spec_next(), final(self).spec_hit()) == discovery_step(
                old(self).spec_endpoints().len(),
                old(self).spec_next(),
                old(self).spec_hit(),
                status,
            ),
            final(self).spec_app_id() == old(self).spec_app_id(),
            final(self).spec_endpoints() == old(self).spec_endpoints(),
            discovery_pending(
                old(self).spec_endpoints().len(),
                (old(self).spec_next(), old(self).spec_hit()),
            ) && status == 200 ==> final(self).spec_empty() == (body@ == NULL_JSON@),
            final(self).probe_is(r),
    {
        if self.hit.is_none() && self.next < self.endpoints.len() {
            if status == 200 {
                self.hit = Some(self.next);
                self.empty = same_text(body, NULL_JSON);
            } else {
                self.next = self.next + 1;
            }
        }
        self.current()
    }
}

} // verus!
