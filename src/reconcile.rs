use vstd::prelude::*;

use crate::client::{attach_label_outcome, attach_label_status, create_device_outcome, create_device_status};
use crate::codec::uuid_accepts;
use crate::decision::{preset_of, Answer, Decision};
use crate::errors::Error;
use crate::ttn::{device_url, TtnDevice};
use vstd::string::StrSliceExecFns;
use crate::types::{credentials_check, Device, DeviceLabel, GetDevice, NewDevice};

verus! {

/// The three batch decisions of a migration run.
#[derive(Debug, Clone, Copy, PartialEq, Eq, Structural)]
pub struct Decisions {
    pub import: Decision,
    pub label: Decision,
    pub delete: Decision,
}

/// What a question is about.
#[derive(Debug, Clone, Copy, PartialEq, Eq, Structural)]
pub enum Axis {
    Import,
    Label,
    Delete,
}

/// How the handling of one source device ended.
#[derive(Debug, Clone, Copy, PartialEq, Eq, Structural)]
pub enum Outcome {
    /// No credentials at all: skipped without a word.
    NoCredentials,
    /// Activation by personalization, which the registry cannot hold.
    Unsupported,
    /// The operator chose not to import it.
    Declined,
    /// A credential failed its check.
    Invalid(Error),
    /// The registry did not create it and did not report a conflict.
    NotCreated(Error),
    /// The registry reported a conflict but the existing record was not found.
    LookupFailed,
    /// The label could not be resolved or attached.
    LabelFailed,
    /// The source refused to delete it.
    DeleteFailed,
    /// The device is in the registry.
    Imported { labeled: bool, deleted: bool },
    /// An event came that did not answer the pending action.
    OutOfOrder,
}

/// Where the handling of one device stands.
#[derive(Debug, Clone, Copy, PartialEq, Eq, Structural)]
pub enum Stage {
    AskImport,
    Creating,
    LookingUp,
    AskLabel,
    ResolvingLabel,
    Attaching,
    AskDelete,
    Deleting,
    Done,
}

/// What to do next for the device.
#[derive(Debug)]
pub enum Action {
    /// Ask the operator about this device; answer with `Event::Answer`.
    Ask(Axis),
    /// Send this creation request to the registry; answer with `Event::CreateStatus`.
    Create(NewDevice),
    /// Fetch the registry's device with these credentials; answer with `Event::Found`.
    Lookup(GetDevice),
    /// Find or create the label named after this source application id;
    /// answer with `Event::LabelId`.
    ResolveLabel(String),
    /// Attach the label to the registry device; answer with `Event::Attached`.
    Attach { device_id: String, label: DeviceLabel },
    /// Delete the device from the source at this URL; answer with `Event::Deleted`.
    DeleteFromSource(String),
    /// Nothing more to do for this device.
    Finish(Outcome),
}

/// What was observed in answer to the pending action.
#[derive(Debug)]
pub enum Event {
    Answer(Answer),
    /// The status of the creation request and, on 201, the record in its body
    /// where it could be read.
    CreateStatus { status: u16, device: Option<Device> },
    /// The record found by the lookup, where it was found.
    Found(Option<Device>),
    /// The identifier of the label, where it was resolved.
    LabelId(Option<String>),
    /// The status of the attach request.
    Attached(u16),
    /// The status of the source delete request.
    Deleted(u16),
}

/// An action as plain values.
pub enum ActionView {
    Ask(Axis),
    Create { app_eui: Seq<char>, app_key: Seq<char>, dev_eui: Seq<char>, name: Seq<char> },
    Lookup { app_eui: Seq<char>, app_key: Seq<char>, dev_eui: Seq<char> },
    ResolveLabel(Seq<char>),
    Attach { device_id: Seq<char>, label: Seq<char> },
    DeleteFromSource(Seq<char>),
    Finish(Outcome),
}

impl View for Action {
    type V = ActionView;

    open spec fn view(&self) -> ActionView {
        match self {
            Action::Ask(a) => ActionView::Ask(*a),
            Action::Create(req) => ActionView::Create {
                app_eui: req.spec_app_eui(),
                app_key: req.spec_app_key(),
                dev_eui: req.spec_dev_eui(),
                name: req.spec_name(),
            },
            Action::Lookup(g) => ActionView::Lookup {
                app_eui: g.spec_app_eui(),
                app_key: g.spec_app_key(),
                dev_eui: g.spec_dev_eui(),
            },
            Action::ResolveLabel(s) => ActionView::ResolveLabel(s@),
            Action::Attach { device_id, label } => ActionView::Attach {
                device_id: device_id@,
                label: label.spec_uuid(),
            },
            Action::DeleteFromSource(url) => ActionView::DeleteFromSource(url@),
            Action::Finish(o) => ActionView::Finish(*o),
        }
    }
}

/// The changing part of the handling of one device.
pub struct ImportState {
    pub stage: Stage,
    pub device_id: Seq<char>,
    pub labeled: bool,
}

pub open spec fn finish(s: ImportState, o: Outcome) -> (ImportState, ActionView) {
    (ImportState { stage: Stage::Done, ..s }, ActionView::Finish(o))
}

/// Building and sending the creation request: it carries the device's own credentials
/// and is named after its device id.
pub open spec fn create_phase(src: TtnDevice, s: ImportState) -> (ImportState, ActionView) {
    let dev = src.lorawan_device;
    match credentials_check(dev.app_eui@, dev.app_key@, dev.dev_eui@) {
        Err(e) => finish(s, Outcome::Invalid(e)),
        Ok(()) => (
            ImportState { stage: Stage::Creating, ..s },
            ActionView::Create {
                app_eui: dev.app_eui@,
                app_key: dev.app_key@,
                dev_eui: dev.dev_eui@,
                name: dev.dev_id@,
            },
        ),
    }
}

/// The delete phase, once a device resulted.
pub open spec fn delete_phase(src: TtnDevice, dec: Decisions, s: ImportState) -> (ImportState, ActionView) {
    match preset_of(dec.delete) {
        Some(Answer::Yes) => (
            ImportState { stage: Stage::Deleting, ..s },
            ActionView::DeleteFromSource(device_url(src.endpoint@, src.app_id@, src.dev_id@)),
        ),
        Some(Answer::No) => finish(s, Outcome::Imported { labeled: s.labeled, deleted: false }),
        None => (ImportState { stage: Stage::AskDelete, ..s }, ActionView::Ask(Axis::Delete)),
    }
}

/// The label phase, once the registry device `device_id` resulted.
pub open spec fn label_phase(src: TtnDevice, dec: Decisions, device_id: Seq<char>) -> (ImportState, ActionView) {
    let s = ImportState { stage: Stage::Done, device_id, labeled: false };
    match preset_of(dec.label) {
        Some(Answer::Yes) => (
            ImportState { stage: Stage::ResolvingLabel, ..s },
            ActionView::ResolveLabel(src.app_id@),
        ),
        Some(Answer::No) => delete_phase(src, dec, s),
        None => (ImportState { stage: Stage::AskLabel, ..s }, ActionView::Ask(Axis::Label)),
    }
}

/// The first step for a source device: devices without an AppKey are not
/// imported (those with session keys are reported as unsupported), then the
/// import decision is applied.
pub open spec fn start_spec(src: TtnDevice, dec: Decisions) -> (ImportState, ActionView) {
    let s = ImportState { stage: Stage::Done, device_id: Seq::empty(), labeled: false };
    let dev = src.lorawan_device;
    if dev.app_key@.len() == 0 {
        if dev.app_s_key@.len() != 0 {
            finish(s, Outcome::Unsupported)
        } else {
            finish(s, Outcome::NoCredentials)
        }
    } else {
        match preset_of(dec.import) {
            Some(Answer::Yes) => create_phase(src, s),
            Some(Answer::No) => finish(s, Outcome::Declined),
            None => (ImportState { stage: Stage::AskImport, ..s }, ActionView::Ask(Axis::Import)),
        }
    }
}

/// One step of the handling of a source device, from state `s` on event `ev`.
pub open spec fn step_spec(src: TtnDevice, dec: Decisions, s: ImportState, ev: Event) -> (ImportState, ActionView) {
    let dev = src.lorawan_device;
    match s.stage {
        Stage::AskImport => match ev {
            Event::Answer(Answer::Yes) => create_phase(src, s),
            Event::Answer(Answer::No) => finish(s, Outcome::Declined),
            _ => finish(s, Outcome::OutOfOrder),
        },
        Stage::Creating => match ev {
            Event::CreateStatus { status, device } => match create_device_outcome(status) {
                Ok(()) => match device {
                    Some(d) => label_phase(src, dec, d.id@),
                    None => finish(s, Outcome::NotCreated(Error::HttpErrorApi)),
                },
                Err(Error::NewDevice422) => (
                    ImportState { stage: Stage::LookingUp, ..s },
                    ActionView::Lookup { app_eui: dev.app_eui@, app_key: dev.app_key@, dev_eui: dev.dev_eui@ },
                ),
                Err(e) => finish(s, Outcome::NotCreated(e)),
            },
            _ => finish(s, Outcome::OutOfOrder),
        },
        Stage::LookingUp => match ev {
            Event::Found(Some(d)) => label_phase(src, dec, d.id@),
            Event::Found(None) => finish(s, Outcome::LookupFailed),
            _ => finish(s, Outcome::OutOfOrder),
        },
        Stage::AskLabel => match ev {
            Event::Answer(Answer::Yes) => (
                ImportState { stage: Stage::ResolvingLabel, ..s },
                ActionView::ResolveLabel(src.app_id@),
            ),
            Event::Answer(Answer::No) => delete_phase(src, dec, s),
            _ => finish(s, Outcome::OutOfOrder),
        },
        Stage::ResolvingLabel => match ev {
            Event::LabelId(Some(id)) => if uuid_accepts(id@) {
                (
                    ImportState { stage: Stage::Attaching, ..s },
                    ActionView::Attach { device_id: s.device_id, label: id@ },
                )
            } else {
                finish(s, Outcome::LabelFailed)
            },
            Event::LabelId(None) => finish(s, Outcome::LabelFailed),
            _ => finish(s, Outcome::OutOfOrder),
        },
        Stage::Attaching => match ev {
            Event::Attached(status) => if attach_label_outcome(status) is Ok {
                delete_phase(src, dec, ImportState { labeled: true, ..s })
            } else {
                finish(s, Outcome::LabelFailed)
            },
            _ => finish(s, Outcome::OutOfOrder),
        },
        Stage::AskDelete => match ev {
            Event::Answer(Answer::Yes) => (
                ImportState { stage: Stage::Deleting, ..s },
                ActionView::DeleteFromSource(device_url(src.endpoint@, src.app_id@, src.dev_id@)),
            ),
            Event::Answer(Answer::No) => finish(s, Outcome::Imported { labeled: s.labeled, deleted: false }),
            _ => finish(s, Outcome::OutOfOrder),
        },
        Stage::Deleting => match ev {
            Event::Deleted(status) => if status == 200 {
                finish(s, Outcome::Imported { labeled: s.labeled, deleted: true })
            } else {
                finish(s, Outcome::DeleteFailed)
            },
            _ => finish(s, Outcome::OutOfOrder),
        },
        Stage::Done => finish(s, Outcome::OutOfOrder),
    }
}

/// Importing a device that the registry already holds adopts the existing
/// record: after a conflict the lookup asks for exactly the credentials that
/// the creation request carried, and once the record `d` held under them is
/// found, the handling goes on just as if `d` had been created now.
pub proof fn lemma_conflict_adopts_existing(src: TtnDevice, dec: Decisions, s: ImportState, d: Device)
    requires
        s.stage == Stage::Creating,
    ensures
        ({
            let conflict = step_spec(src, dec, s, Event::CreateStatus { status: 422, device: None });
            let created = step_spec(src, dec, s, Event::CreateStatus { status: 201, device: Some(d) });
            &&& create_phase(src, s).1 matches ActionView::Create { app_eui, app_key, dev_eui, .. }
                ==> conflict.1 == ActionView::Lookup { app_eui, app_key, dev_eui }
            &&& conflict.0.stage == Stage::LookingUp
            &&& step_spec(src, dec, conflict.0, Event::Found(Some(d))) == created
            &&& created.0.device_id == d.id@
        }),
{
}

/// A device activated by personalization (no AppKey, but session keys) is
/// reported as unsupported and never reaches the creation request, whatever
/// happens next.
pub proof fn lemma_abp_never_created(src: TtnDevice, dec: Decisions, ev: Event)
    requires
        src.lorawan_device.app_key@.len() == 0,
        src.lorawan_device.app_s_key@.len() != 0,
    ensures
        start_spec(src, dec).1 == ActionView::Finish(Outcome::Unsupported),
        !(step_spec(src, dec, start_spec(src, dec).0, ev).1 is Create),
{
}

/// Stages that are reached only once a registry device resulted.
pub open spec fn after_import(stage: Stage) -> bool {
    match stage {
        Stage::AskLabel | Stage::ResolvingLabel | Stage::Attaching | Stage::AskDelete | Stage::Deleting => true,
        _ => false,
    }
}

/// Actions that label a device or delete it from the source, or ask about it.
pub open spec fn labels_or_deletes(a: ActionView) -> bool {
    match a {
        ActionView::Ask(axis) => axis != Axis::Import,
        ActionView::ResolveLabel(_) | ActionView::Attach { .. } | ActionView::DeleteFromSource(_) => true,
        _ => false,
    }
}

/// Labelling and deletion come only after a successful import: the first step
/// never labels or deletes, and before a device resulted a step does so only
/// on the event that brings the registry record, a creation answered with 201
/// and a record, or a lookup that found one.
pub proof fn lemma_label_and_delete_follow_import(src: TtnDevice, dec: Decisions, s: ImportState, ev: Event)
    requires
        !after_import(s.stage),
    ensures
        !labels_or_deletes(start_spec(src, dec).1),
        labels_or_deletes(step_spec(src, dec, s, ev).1) ==> {
            ||| s.stage == Stage::Creating && (ev matches Event::CreateStatus { status, device: Some(_) }
                && status == 201)
            ||| s.stage == Stage::LookingUp && (ev matches Event::Found(Some(_)))
        },
{
}

/// The handling of one source device: building the request, creation or adoption in
/// the registry, labelling and removal from the source, in that fixed order,
/// each governed by the batch decisions and, where those say to ask, by the
/// operator's answer for this device.
pub struct DeviceImport {
    source: TtnDevice,
    decisions: Decisions,
    stage: Stage,
    device_id: String,
    labeled: bool,
}

impl DeviceImport {
    #[verifier::type_invariant]
    closed spec fn well_formed(self) -> bool {
        let dev = self.source.lorawan_device;
        self.stage == Stage::Creating ==> credentials_check(dev.app_eui@, dev.app_key@, dev.dev_eui@) is Ok
    }

    pub closed spec fn spec_source(&self) -> TtnDevice {
        self.source
    }

    pub closed spec fn spec_decisions(&self) -> Decisions {
        self.decisions
    }

    pub closed spec fn spec_state(&self) -> ImportState {
        ImportState { stage: self.stage, device_id: self.device_id@, labeled: self.labeled }
    }

    /// The source device being handled.
    pub fn source(&self) -> (r: &TtnDevice)
        ensures
            *r == self.spec_source(),
    {
        &self.source
    }

    pub fn stage(&self) -> (r: Stage)
        ensures
            r == self.spec_state().stage,
    {
        self.stage
    }

    fn finish(&mut self, o: Outcome) -> (r: Action)
        ensures
            final(self).spec_source() == old(self).spec_source(),
            final(self).spec_decisions() == old(self).spec_decisions(),
            (final(self).spec_state(), r@) == finish(old(self).spec_state(), o),
    {
        self.stage = Stage::Done;
        Action::Finish(o)
    }

    fn create_phase(&mut self) -> (r: Action)
        ensures
            final(self).spec_source() == old(self).spec_source(),
            final(self).spec_decisions() == old(self).spec_decisions(),
            (final(self).spec_state(), r@) == create_phase(old(self).spec_source(), old(self).spec_state()),
    {
        match self.source.derive_new_device_request() {
            Err(e) => self.finish(Outcome::Invalid(e)),
            Ok(req) => {
                self.stage = Stage::Creating;
                Action::Create(req)
            },
        }
    }

    fn delete_phase(&mut self) -> (r: Action)
        ensures
            final(self).spec_source() == old(self).spec_source(),
            final(self).spec_decisions() == old(self).spec_decisions(),
            (final(self).spec_state(), r@) == delete_phase(
                old(self).spec_source(),
                old(self).spec_decisions(),
                old(self).spec_state(),
            ),
    {
        match self.decisions.delete.preset() {
            Some(Answer::Yes) => {
                self.stage = Stage::Deleting;
                Action::DeleteFromSource(self.source.delete_url())
            },
            Some(Answer::No) => {
                let labeled = self.labeled;
                self.finish(Outcome::Imported { labeled, deleted: false })
            },
            None => {
                self.stage = Stage::AskDelete;
                Action::Ask(Axis::Delete)
            },
        }
    }

    fn label_phase(&mut self, device_id: String) -> (r: Action)
        ensures
            final(self).spec_source() == old(self).spec_source(),
            final(self).spec_decisions() == old(self).spec_decisions(),
            (final(self).spec_state(), r@) == label_phase(
                old(self).spec_source(),
                old(self).spec_decisions(),
                device_id@,
            ),
    {
        self.stage = Stage::Done;
        self.device_id = device_id;
        self.labeled = false;
        match self.decisions.label.preset() {
            Some(Answer::Yes) => {
                self.stage = Stage::ResolvingLabel;
                Action::ResolveLabel(self.source.app_id.clone())
            },
            Some(Answer::No) => self.delete_phase(),
            None => {
                self.stage = Stage::AskLabel;
                Action::Ask(Axis::Label)
            },
        }
    }

    /// Starts the handling of a source device under the batch decisions.
    pub fn start(source: TtnDevice, decisions: Decisions) -> (r: (DeviceImport, Action))
        ensures
            r.0.spec_source() == source,
            r.0.spec_decisions() == decisions,
            (r.0.spec_state(), r.1@) == start_spec(source, decisions),
    {
        let mut run = DeviceImport {
            source,
            decisions,
            stage: Stage::Done,
            device_id: String::new(),
            labeled: false,
        };
        let action = if run.source.lorawan_device.app_key.unicode_len() == 0 {
            if run.source.lorawan_device.app_s_key.unicode_len() != 0 {
                run.finish(Outcome::Unsupported)
            } else {
                run.finish(Outcome::NoCredentials)
            }
        } else {
            match run.decisions.import.preset() {
                Some(Answer::Yes) => run.create_phase(),
                Some(Answer::No) => run.finish(Outcome::Declined),
                None => {
                    run.stage = Stage::AskImport;
                    Action::Ask(Axis::Import)
                },
            }
        };
        (run, action)
    }

    /// Takes the event that answers the pending action and says what to do next.
    pub fn step(&mut self, ev: Event) -> (r: Action)
        ensures
            final(self).spec_source() == old(self).spec_source(),
            final(self).spec_decisions() == old(self).spec_decisions(),
            (final(self).spec_state(), r@) == step_spec(
                old(self).spec_source(),
                old(self).spec_decisions(),
                old(self).spec_state(),
                ev,
            ),
    {
        proof {
            use_type_invariant(&*self);
        }
        match self.stage {
            Stage::AskImport => match ev {
                Event::Answer(Answer::Yes) => self.create_phase(),
                Event::Answer(Answer::No) => self.finish(Outcome::Declined),
                _ => self.finish(Outcome::OutOfOrder),
            },
            Stage::Creating => match ev {
                Event::CreateStatus { status, device } => match create_device_status(status) {
                    Ok(()) => match device {
                        Some(d) => self.label_phase(d.id),
                        None => self.finish(Outcome::NotCreated(Error::HttpErrorApi)),
                    },
                    Err(Error::NewDevice422) => {
                        self.stage = Stage::LookingUp;
                        let dev = &self.source.lorawan_device;
                        let found = GetDevice::from_user_input(
                            dev.app_eui.clone(),
                            dev.app_key.clone(),
                            dev.dev_eui.clone(),
                        );
                        // The credentials passed their checks when the creation
                        // request was built, so this lookup is always formed.
                        match found {
                            Ok(g) => Action::Lookup(g),
                            Err(_) => self.finish(Outcome::OutOfOrder),
                        }
                    },
                    Err(e) => self.finish(Outcome::NotCreated(e)),
                },
                _ => self.finish(Outcome::OutOfOrder),
            },
            Stage::LookingUp => match ev {
                Event::Found(Some(d)) => self.label_phase(d.id),
                Event::Found(None) => self.finish(Outcome::LookupFailed),
                _ => self.finish(Outcome::OutOfOrder),
            },
            Stage::AskLabel => match ev {
                Event::Answer(Answer::Yes) => {
                    self.stage = Stage::ResolvingLabel;
                    Action::ResolveLabel(self.source.app_id.clone())
                },
                Event::Answer(Answer::No) => self.delete_phase(),
                _ => self.finish(Outcome::OutOfOrder),
            },
            Stage::ResolvingLabel => match ev {
                Event::LabelId(Some(id)) => match DeviceLabel::from_uuid(id) {
                    Ok(label) => {
                        self.stage = Stage::Attaching;
                        Action::Attach { device_id: self.device_id.clone(), label }
                    },
                    Err(_) => self.finish(Outcome::LabelFailed),
                },
                Event::LabelId(None) => self.finish(Outcome::LabelFailed),
                _ => self.finish(Outcome::OutOfOrder),
            },
            Stage::Attaching => match ev {
                Event::Attached(status) => {
                    if attach_label_status(status).is_ok() {
                        self.labeled = true;
                        self.delete_phase()
                    } else {
                        self.finish(Outcome::LabelFailed)
                    }
                },
                _ => self.finish(Outcome::OutOfOrder),
            },
            Stage::AskDelete => match ev {
                Event::Answer(Answer::Yes) => {
                    self.stage = Stage::Deleting;
                    Action::DeleteFromSource(self.source.delete_url())
                },
                Event::Answer(Answer::No) => {
                    let labeled = self.labeled;
                    self.finish(Outcome::Imported { labeled, deleted: false })
                },
                _ => self.finish(Outcome::OutOfOrder),
            },
            Stage::Deleting => match ev {
                Event::Deleted(status) => {
                    let labeled = self.labeled;
                    if status == 200 {
                        self.finish(Outcome::Imported { labeled, deleted: true })
                    } else {
                        self.finish(Outcome::DeleteFailed)
                    }
                },
                _ => self.finish(Outcome::OutOfOrder),
            },
            Stage::Done => self.finish(Outcome::OutOfOrder),
        }
    }
}

} // verus!
