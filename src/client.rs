use vstd::prelude::*;

use crate::codec::{is_base64_of_len, upper_of, uppercase, validate_base64};
use crate::errors::Error;
use crate::types::{GetDevice, Label, NewLabel};
use vstd::string::StringExecFns;

verus! {

pub const DEFAULT_BASE_URL: &'static str = "https://console.helium.com";

/// Seconds that one registry request may take.
pub const DEFAULT_TIMEOUT: u64 = 120;

/// Where the registry is and how to authenticate to it.
#[derive(Clone, Debug)]
pub struct Config {
    pub key: String,
    pub base_url: String,
    pub request_timeout: u64,
}

impl Config {
    pub fn new(key: String) -> (r: Config)
        ensures
            r.key == key,
            r.base_url@ == DEFAULT_BASE_URL@,
            r.request_timeout == DEFAULT_TIMEOUT,
    {
        Self::new_with_url(key, DEFAULT_BASE_URL)
    }

    pub fn new_with_url(key: String, url: &str) -> (r: Config)
        ensures
            r.key == key,
            r.base_url@ == url@,
            r.request_timeout == DEFAULT_TIMEOUT,
    {
        Config { key, base_url: String::from_str(url), request_timeout: DEFAULT_TIMEOUT }
    }
}

/// Checks that a registry API key is 32 bytes in base64.
pub fn validate_api_key(key: &str) -> (r: Result<(), Error>)
    ensures
        r is Ok <==> is_base64_of_len(key@, 32),
        r is Err ==> r == Err::<(), Error>(Error::InvalidApiKey),
{
    match validate_base64(key, 32) {
        Ok(()) => Ok(()),
        Err(_) => Err(Error::InvalidApiKey),
    }
}

/// What a status of a registry read (a device list, one device) means.
pub open spec fn read_outcome(status: u16) -> Result<(), Error> {
    if status == 200 {
        Ok(())
    } else if status == 401 {
        Err(Error::UnauthorizedApi)
    } else {
        Err(Error::HttpErrorApi)
    }
}

pub fn read_status(status: u16) -> (r: Result<(), Error>)
    ensures
        r == read_outcome(status),
{
    if status == 200 {
        Ok(())
    } else if status == 401 {
        Err(Error::UnauthorizedApi)
    } else {
        Err(Error::HttpErrorApi)
    }
}

/// What a status of a device creation means: 201 is success, 422 says that a
/// device with the same credentials exists.
pub open spec fn create_device_outcome(status: u16) -> Result<(), Error> {
    if status == 201 {
        Ok(())
    } else if status == 401 {
        Err(Error::UnauthorizedApi)
    } else if status == 422 {
        Err(Error::NewDevice422)
    } else {
        Err(Error::NewDeviceApi)
    }
}

pub fn create_device_status(status: u16) -> (r: Result<(), Error>)
    ensures
        r == create_device_outcome(status),
{
    if status == 201 {
        Ok(())
    } else if status == 401 {
        Err(Error::UnauthorizedApi)
    } else if status == 422 {
        Err(Error::NewDevice422)
    } else {
        Err(Error::NewDeviceApi)
    }
}

/// How a device removal ended where it did not fail.
#[derive(Debug, Clone, Copy, PartialEq, Eq, Structural)]
pub enum Removal {
    Deleted,
    NotFound,
}

/// What a status of a device removal means; a device that is already gone
/// is not an error.
pub open spec fn delete_device_outcome(status: u16) -> Result<Removal, Error> {
    if status == 200 {
        Ok(Removal::Deleted)
    } else if status == 401 {
        Err(Error::UnauthorizedApi)
    } else if status == 404 {
        Ok(Removal::NotFound)
    } else {
        Err(Error::HttpErrorApi)
    }
}

pub fn delete_device_status(status: u16) -> (r: Result<Removal, Error>)
    ensures
        r == delete_device_outcome(status),
{
    if status == 200 {
        Ok(Removal::Deleted)
    } else if status == 401 {
        Err(Error::UnauthorizedApi)
    } else if status == 404 {
        Ok(Removal::NotFound)
    } else {
        Err(Error::HttpErrorApi)
    }
}

/// What a status of a label creation means.
pub open spec fn create_label_outcome(status: u16) -> Result<(), Error> {
    if status == 201 {
        Ok(())
    } else if status == 422 {
        Err(Error::NewLabel422)
    } else {
        Err(Error::NewLabelApi)
    }
}

pub fn create_label_status(status: u16) -> (r: Result<(), Error>)
    ensures
        r == create_label_outcome(status),
{
    if status == 201 {
        Ok(())
    } else if status == 422 {
        Err(Error::NewLabel422)
    } else {
        Err(Error::NewLabelApi)
    }
}

/// What a status of attaching a label to a device means.
pub open spec fn attach_label_outcome(status: u16) -> Result<(), Error> {
    if status == 200 || status == 201 {
        Ok(())
    } else {
        Err(Error::NewDeviceLabelApi)
    }
}

pub fn attach_label_status(status: u16) -> (r: Result<(), Error>)
    ensures
        r == attach_label_outcome(status),
{
    if status == 200 || status == 201 {
        Ok(())
    } else {
        Err(Error::NewDeviceLabelApi)
    }
}

/// The registry path that finds a device by its credential triple.
pub open spec fn device_query(dev_eui: Seq<char>, app_eui: Seq<char>, app_key: Seq<char>) -> Seq<char> {
    "api/v1/devices?dev_eui="@ + dev_eui + "&app_eui="@ + app_eui + "&app_key="@ + app_key
}

impl GetDevice {
    /// The registry path of this lookup.
    pub fn query_path(&self) -> (r: String)
        ensures
            r@ == device_query(self.spec_dev_eui(), self.spec_app_eui(), self.spec_app_key()),
    {
        let mut r = String::from_str("api/v1/devices?dev_eui=");
        r.append(self.dev_eui().as_str());
        r.append("&app_eui=");
        r.append(self.app_eui().as_str());
        r.append("&app_key=");
        r.append(self.app_key().as_str());
        r
    }
}

/// Label names to identifiers, as a list of labels where a later entry wins.
pub open spec fn label_map(s: Seq<Label>) -> Map<Seq<char>, Seq<char>>
    decreases s.len(),
{
    if s.len() == 0 {
        Map::empty()
    } else {
        label_map(s.drop_last()).insert(s.last().name@, s.last().id@)
    }
}

proof fn lemma_label_map_prefix(s: Seq<Label>, i: int, k: Seq<char>)
    requires
        0 <= i <= s.len(),
        forall|j: int| i <= j < s.len() ==> (#[trigger] s[j]).name@ != k,
    ensures
        label_map(s).contains_key(k) == label_map(s.subrange(0, i)).contains_key(k),
        label_map(s).contains_key(k) ==> label_map(s)[k] == label_map(s.subrange(0, i))[k],
    decreases s.len(),
{
    if s.len() > i {
        assert(s.drop_last().subrange(0, i) == s.subrange(0, i));
        lemma_label_map_prefix(s.drop_last(), i, k);
    } else {
        assert(s.subrange(0, i) == s);
    }
}

proof fn lemma_label_map_concat(a: Seq<Label>, b: Seq<Label>)
    ensures
        label_map(a + b) == label_map(a).union_prefer_right(label_map(b)),
    decreases b.len(),
{
    if b.len() == 0 {
        assert(a + b == a);
        assert(label_map(a).union_prefer_right(Map::empty()) =~= label_map(a));
    } else {
        assert((a + b).drop_last() == a + b.drop_last());
        lemma_label_map_concat(a, b.drop_last());
        assert(label_map(a + b) =~= label_map(a).union_prefer_right(label_map(b)));
    }
}

/// What the label cache says to do next for a label name.
#[derive(Debug)]
pub enum LabelStep {
    /// The label exists; here is its identifier.
    Known(String),
    /// The registry's labels were never fetched: fetch them, then ask again.
    Fetch,
    /// No such label exists: create it, record it, then ask again.
    Create(NewLabel),
}

/// Label names to identifiers, fetched from the registry once and then kept
/// up to date with the labels that this run creates.
pub struct LabelCache {
    entries: Vec<Label>,
    fetched: bool,
}

impl LabelCache {
    /// The names known, with their identifiers.
    pub closed spec fn spec_ids(&self) -> Map<Seq<char>, Seq<char>> {
        label_map(self.entries@)
    }

    /// Whether the registry's labels were fetched.
    pub closed spec fn spec_fetched(&self) -> bool {
        self.fetched
    }

    pub fn new() -> (r: LabelCache)
        ensures
            r.spec_ids() == Map::<Seq<char>, Seq<char>>::empty(),
            !r.spec_fetched(),
    {
        LabelCache { entries: Vec::new(), fetched: false }
    }

    pub fn is_fetched(&self) -> (r: bool)
        ensures
            r == self.spec_fetched(),
    {
        self.fetched
    }

    /// The identifier of the label of that exact name, if known.
    pub fn lookup(&self, name: &String) -> (r: Option<String>)
        ensures
            match r {
                Some(id) => self.spec_ids().contains_key(name@) && self.spec_ids()[name@] == id@,
                None => !self.spec_ids().contains_key(name@),
            },
    {
        let mut i = self.entries.len();
        while i > 0
            invariant
                i <= self.entries@.len(),
                forall|j: int| i <= j < self.entries@.len() ==> (#[trigger] self.entries@[j]).name@ != name@,
            decreases i,
        {
            i -= 1;
            if self.entries[i].name == *name {
                proof {
                    let s = self.entries@;
                    lemma_label_map_prefix(s, i + 1, name@);
                    assert(s.subrange(0, i + 1).drop_last() == s.subrange(0, i as int));
                }
                return Some(self.entries[i].id.clone());
            }
        }
        proof {
            lemma_label_map_prefix(self.entries@, 0, name@);
        }
        None
    }

    /// Resolves a label name, upper-cased first so that names that differ only
    /// in case share one label.
    pub fn next_step(&self, name: &str) -> (r: LabelStep)
        ensures
            ({
                let key = upper_of(name@);
                if self.spec_ids().contains_key(key) {
                    r matches LabelStep::Known(id) && id@ == self.spec_ids()[key]
                } else if !self.spec_fetched() {
                    r is Fetch
                } else {
                    r matches LabelStep::Create(l) && l.name@ == key
                }
            }),
    {
        let key = uppercase(name);
        match self.lookup(&key) {
            Some(id) => LabelStep::Known(id),
            None => {
                if !self.fetched {
                    LabelStep::Fetch
                } else {
                    LabelStep::Create(NewLabel::from_string(key.as_str()))
                }
            },
        }
    }

    /// Takes in the registry's full label list.
    pub fn fill(&mut self, labels: Vec<Label>)
        ensures
            final(self).spec_ids() == old(self).spec_ids().union_prefer_right(label_map(labels@)),
            final(self).spec_fetched(),
    {
        let mut labels = labels;
        proof {
            lemma_label_map_concat(self.entries@, labels@);
        }
        self.entries.append(&mut labels);
        self.fetched = true;
    }

    /// Records a label that was just created.
    pub fn record(&mut self, label: Label)
        ensures
            final(self).spec_ids() == old(self).spec_ids().insert(label.name@, label.id@),
            final(self).spec_fetched() == old(self).spec_fetched(),
    {
        let ghost before = self.entries@;
        self.entries.push(label);
        proof {
            assert(self.entries@.drop_last() == before);
        }
    }
}

} // verus!
