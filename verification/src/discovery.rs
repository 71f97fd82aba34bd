//! Discovery of sensors from the events of Bluetooth adapters.
//!
//! A sensor announces itself with a manufacturer-data advertisement under
//! the company identifier [`MANUFACTURER_ID`]. Its payload starts with the
//! seven bytes of [`ManufacturerData`]; bytes 8 to 20, where present, hold a
//! detailed reading.

use std::collections::HashMap;
use vstd::prelude::*;
use vstd::slice::slice_subrange;
use vstd::std_specs::hash::*;
use crate::error::Error;
use crate::manufacturer::{ManufacturerData, MANUFACTURER_DATA_LEN};
use crate::reading::CurrentReadingDetailed;
use crate::uuids::MANUFACTURER_ID;

verus! {

/// Offset of the embedded reading in an advertisement payload.
pub const EMBEDDED_READING_START: usize = 8;

/// Offset just past the embedded reading in an advertisement payload.
pub const EMBEDDED_READING_END: usize = 21;

/// An event of a Bluetooth central. `P` identifies a peripheral.
#[derive(Debug)]
pub enum CentralEvent<P> {
    DeviceDiscovered(P),
    DeviceUpdated(P),
    DeviceConnected(P),
    DeviceDisconnected(P),
    /// Manufacturer data was advertised, keyed by company identifier.
    ManufacturerDataAdvertisement { id: P, manufacturer_data: HashMap<u16, Vec<u8>> },
    ServiceDataAdvertisement { id: P },
    ServicesAdvertisement { id: P },
}

/// One advertisement of a sensor. The same sensor gives one of these for
/// every advertisement that is received.
#[derive(Debug)]
pub struct DiscoveredAranet<P> {
    /// Index of the adapter that received the advertisement.
    pub adapter: usize,
    /// The peripheral that sent it.
    pub peripheral_id: P,
    pub manufacturer_data: ManufacturerData,
    /// The reading carried along, absent when the payload holds none that
    /// decodes.
    pub current_reading: Option<CurrentReadingDetailed>,
}

/// The reading embedded in an advertisement payload: bytes 8 to 20, where
/// the payload is long enough and they decode.
pub open spec fn spec_embedded_reading(data: Seq<u8>) -> Option<CurrentReadingDetailed> {
    if data.len() >= 21 && CurrentReadingDetailed::spec_decodable(data.subrange(8, 21)) {
        Some(CurrentReadingDetailed::spec_parse(data.subrange(8, 21)))
    } else {
        None
    }
}

/// What an advertisement payload of the sensor holds, or the failure to
/// decode it.
pub open spec fn spec_decode_advertisement(data: Seq<u8>) -> Result<
    (ManufacturerData, Option<CurrentReadingDetailed>),
    Error,
> {
    if data.len() < 7 {
        Err(Error::MalformedInput)
    } else {
        Ok((ManufacturerData::spec_parse(data.subrange(0, 7)), spec_embedded_reading(data)))
    }
}

/// The sender and payload of the sensor's manufacturer data in an event,
/// absent for every other kind of event and for advertisements that hold
/// nothing under the sensor's company identifier.
pub open spec fn spec_sensor_payload<P>(event: CentralEvent<P>) -> Option<(P, Seq<u8>)> {
    match event {
        CentralEvent::ManufacturerDataAdvertisement { id, manufacturer_data } => {
            if manufacturer_data@.contains_key(MANUFACTURER_ID) {
                Some((id, manufacturer_data@[MANUFACTURER_ID]@))
            } else {
                None
            }
        },
        _ => None,
    }
}

/// What an event of adapter `adapter` means for discovery: nothing, a
/// sighting of a sensor, or a payload that is too short to be one.
pub open spec fn spec_sighting<P>(adapter: usize, event: CentralEvent<P>) -> Result<
    Option<DiscoveredAranet<P>>,
    Error,
> {
    match spec_sensor_payload(event) {
        None => Ok(None),
        Some((id, data)) => match spec_decode_advertisement(data) {
            Err(e) => Err(e),
            Ok((manufacturer_data, current_reading)) => Ok(
                Some(
                    DiscoveredAranet {
                        adapter,
                        peripheral_id: id,
                        manufacturer_data,
                        current_reading,
                    },
                ),
            ),
        },
    }
}

/// Decodes the payload that a sensor advertises under its company
/// identifier. Fails when the payload is shorter than the manufacturer data.
/// A reading that is missing or does not decode is reported as absent.
pub fn decode_advertisement(data: &[u8]) -> (res: Result<
    (ManufacturerData, Option<CurrentReadingDetailed>),
    Error,
>)
    ensures
        res == spec_decode_advertisement(data@),
        res is Ok <==> data@.len() >= 7,
{
    if data.len() < MANUFACTURER_DATA_LEN {
        return Err(Error::MalformedInput);
    }
    let manufacturer_data = match ManufacturerData::parse(
        slice_subrange(data, 0, MANUFACTURER_DATA_LEN),
    ) {
        Ok(m) => m,
        Err(e) => {
            return Err(e);
        },
    };
    let current_reading = if data.len() >= EMBEDDED_READING_END {
        match CurrentReadingDetailed::parse(
            slice_subrange(data, EMBEDDED_READING_START, EMBEDDED_READING_END),
        ) {
            Ok(r) => Some(r),
            Err(_) => None,
        }
    } else {
        None
    };
    Ok((manufacturer_data, current_reading))
}

/// Interprets one event of adapter `adapter`. Events other than
/// manufacturer-data advertisements, and advertisements without an entry
/// for the sensor's company identifier, give nothing.
pub fn sighting<P>(adapter: usize, event: CentralEvent<P>) -> (res: Result<
    Option<DiscoveredAranet<P>>,
    Error,
>)
    ensures
        res == spec_sighting(adapter, event),
        res matches Ok(Some(device)) ==> {
            &&& event matches CentralEvent::ManufacturerDataAdvertisement { id, manufacturer_data }
            &&& manufacturer_data@.contains_key(MANUFACTURER_ID)
            &&& manufacturer_data@[MANUFACTURER_ID]@.len() >= 7
            &&& device.adapter == adapter
            &&& device.peripheral_id == id
        },
{
    broadcast use group_hash_axioms;

    match event {
        CentralEvent::ManufacturerDataAdvertisement { id, manufacturer_data } => {
            match manufacturer_data.get(&MANUFACTURER_ID) {
                Some(data) => match decode_advertisement(data.as_slice()) {
                    Ok((manufacturer_data, current_reading)) => Ok(
                        Some(
                            DiscoveredAranet {
                                adapter,
                                peripheral_id: id,
                                manufacturer_data,
                                current_reading,
                            },
                        ),
                    ),
                    Err(e) => Err(e),
                },
                None => Ok(None),
            }
        },
        _ => Ok(None),
    }
}

/// Where one adapter stands in discovery.
#[derive(Clone, Copy, Debug, PartialEq, Eq, Structural)]
pub enum AdapterPhase {
    /// Nothing was asked of the adapter yet.
    Idle,
    /// The adapter scans for the sensor's service.
    Scanning,
    /// The adapter scans and its events are subscribed to.
    Listening,
    /// The adapter's event source has ended. Its scan was not stopped.
    Ended,
    /// The adapter's scan was stopped because discovery was.
    Released,
}

/// What the transport and the consumer report back to discovery.
#[derive(Debug)]
pub enum DiscoveryEvent<P> {
    /// The scan that was asked for has started.
    ScanStarted,
    /// The subscription that was asked for is in place.
    Subscribed,
    /// The scan or the subscription that was asked for failed.
    SetupFailed,
    /// An adapter delivered an event.
    Central { adapter: usize, event: CentralEvent<P> },
    /// The event source of an adapter has ended.
    SourceEnded { adapter: usize },
    /// The consumer wants no more sightings, or gave up after a failure.
    Stopped,
    /// The scan that was to be stopped is over.
    ScanStopped,
}

/// What discovery asks of its caller next.
#[derive(Clone, Copy, Debug, PartialEq, Eq, Structural)]
pub enum DiscoveryAction {
    /// Start a scan on the adapter, filtered to the service.
    StartScan { adapter: usize, service: u128 },
    /// Subscribe to the adapter's events.
    Subscribe { adapter: usize },
    /// Wait for the next event of any listening adapter.
    Await,
    /// Report the failure.
    Fail(Error),
    /// Stop the scan on the adapter and drop its subscription.
    StopScan { adapter: usize },
    /// End the sequence. Of a discovery that goes on: no adapter can
    /// deliver anything more. Of a stopped one: every scan that was started
    /// has been stopped.
    Finish,
}

/// Whether a scan that discovery started, and did not stop, is on an
/// adapter in `phase`. The end of an adapter's events does not stop its
/// scan.
pub open spec fn spec_scans(phase: AdapterPhase) -> bool {
    phase == AdapterPhase::Scanning || phase == AdapterPhase::Listening || phase
        == AdapterPhase::Ended
}

/// Index of the first adapter from `from` on with a running scan, or the
/// number of adapters where there is none.
pub open spec fn spec_first_scanning(phases: Seq<AdapterPhase>, from: int) -> int
    decreases phases.len() - from,
{
    if from < 0 || from >= phases.len() {
        phases.len() as int
    } else if spec_scans(phases[from]) {
        from
    } else {
        spec_first_scanning(phases, from + 1)
    }
}

/// Position of a phase in the life of an adapter.
pub open spec fn spec_phase_rank(phase: AdapterPhase) -> nat {
    match phase {
        AdapterPhase::Idle => 0,
        AdapterPhase::Scanning => 1,
        AdapterPhase::Listening => 2,
        AdapterPhase::Ended => 3,
        AdapterPhase::Released => 4,
    }
}

/// Abstract state of discovery.
#[verifier::ext_equal]
pub ghost struct DiscoveryView {
    /// Phase of each adapter.
    pub phases: Seq<AdapterPhase>,
    /// Number of adapters that are set up.
    pub ready: nat,
    /// Whether setting up the adapter at `ready` failed.
    pub failed: bool,
    /// Whether discovery was stopped.
    pub stopped: bool,
}

impl DiscoveryView {
    /// Adapters are set up one after the other, and events are only
    /// awaited once all of them listen: the adapters before `ready` listen,
    /// none has ended while one is not set up, the adapter at `ready` is
    /// idle or scanning, and those after it are idle. Scans are released
    /// only once discovery was stopped. An index names every adapter.
    pub open spec fn wf(self) -> bool {
        &&& self.phases.len() <= usize::MAX
        &&& self.ready <= self.phases.len()
        &&& self.failed ==> self.ready < self.phases.len()
        &&& forall|i: int|
            0 <= i < self.ready ==> {
                ||| #[trigger] self.phases[i] == AdapterPhase::Listening
                ||| self.phases[i] == AdapterPhase::Ended && self.ready == self.phases.len()
                ||| self.phases[i] == AdapterPhase::Released && self.stopped
            }
        &&& self.ready < self.phases.len() ==> {
            ||| self.phases[self.ready as int] == AdapterPhase::Idle
            ||| self.phases[self.ready as int] == AdapterPhase::Scanning
            ||| self.phases[self.ready as int] == AdapterPhase::Released && self.stopped
        }
        &&& forall|i: int|
            self.ready < i < self.phases.len() ==> #[trigger] self.phases[i] == AdapterPhase::Idle
    }

    /// The state before anything was asked of any of `adapters` adapters.
    pub open spec fn initial(adapters: nat) -> DiscoveryView {
        DiscoveryView {
            phases: Seq::new(adapters, |i: int| AdapterPhase::Idle),
            ready: 0,
            failed: false,
            stopped: false,
        }
    }

    /// Whether some adapter listens.
    pub open spec fn any_listening(self) -> bool {
        exists|i: int|
            0 <= i < self.phases.len() && #[trigger] self.phases[i] == AdapterPhase::Listening
    }

    /// Whether some adapter has a scan that discovery started and did not
    /// stop.
    pub open spec fn any_scanning(self) -> bool {
        exists|i: int| 0 <= i < self.phases.len() && spec_scans(#[trigger] self.phases[i])
    }

    /// Whether events of adapter `adapter` are taken: discovery goes on,
    /// all adapters are set up and this one listens.
    pub open spec fn listens(self, adapter: usize) -> bool {
        &&& !self.stopped
        &&& !self.failed
        &&& self.ready == self.phases.len()
        &&& adapter < self.phases.len()
        &&& self.phases[adapter as int] == AdapterPhase::Listening
    }

    /// The action that the state waits for.
    pub open spec fn pending(self) -> DiscoveryAction {
        if self.stopped {
            let first = spec_first_scanning(self.phases, 0);
            if first < self.phases.len() {
                DiscoveryAction::StopScan { adapter: first as usize }
            } else {
                DiscoveryAction::Finish
            }
        } else if self.failed {
            DiscoveryAction::Fail(Error::TransportError)
        } else if self.ready < self.phases.len() {
            match self.phases[self.ready as int] {
                AdapterPhase::Idle => DiscoveryAction::StartScan {
                    adapter: self.ready as usize,
                    service: crate::uuids::AR4_SERVICE,
                },
                AdapterPhase::Scanning => DiscoveryAction::Subscribe {
                    adapter: self.ready as usize,
                },
                _ => DiscoveryAction::Fail(Error::TransportError),
            }
        } else if self.any_listening() {
            DiscoveryAction::Await
        } else {
            DiscoveryAction::Finish
        }
    }

    /// The state with the phase of adapter `adapter` replaced.
    pub open spec fn with_phase(self, adapter: int, phase: AdapterPhase) -> DiscoveryView {
        DiscoveryView { phases: self.phases.update(adapter, phase), ..self }
    }

    /// The state after `event`. An event that does not answer what the
    /// state waits for leaves it unchanged.
    pub open spec fn after<P>(self, event: DiscoveryEvent<P>) -> DiscoveryView {
        match event {
            DiscoveryEvent::ScanStarted => {
                if self.pending() is StartScan {
                    self.with_phase(self.ready as int, AdapterPhase::Scanning)
                } else {
                    self
                }
            },
            DiscoveryEvent::Subscribed => {
                if self.pending() is Subscribe {
                    DiscoveryView {
                        phases: self.phases.update(self.ready as int, AdapterPhase::Listening),
                        ready: self.ready + 1,
                        ..self
                    }
                } else {
                    self
                }
            },
            DiscoveryEvent::SetupFailed => {
                if self.pending() is StartScan || self.pending() is Subscribe {
                    DiscoveryView { failed: true, ..self }
                } else {
                    self
                }
            },
            DiscoveryEvent::Central { adapter, event } => self,
            DiscoveryEvent::SourceEnded { adapter } => {
                if self.listens(adapter) {
                    self.with_phase(adapter as int, AdapterPhase::Ended)
                } else {
                    self
                }
            },
            DiscoveryEvent::Stopped => DiscoveryView { stopped: true, ..self },
            DiscoveryEvent::ScanStopped => {
                if self.pending() is StopScan {
                    self.with_phase(spec_first_scanning(self.phases, 0), AdapterPhase::Released)
                } else {
                    self
                }
            },
        }
    }

    /// The sighting that `event` gives in this state: that of an event of
    /// a listening adapter, and nothing otherwise.
    pub open spec fn sighted<P>(self, event: DiscoveryEvent<P>) -> Result<
        Option<DiscoveredAranet<P>>,
        Error,
    > {
        match event {
            DiscoveryEvent::Central { adapter, event } => {
                if self.listens(adapter) {
                    spec_sighting(adapter, event)
                } else {
                    Ok(None)
                }
            },
            _ => Ok(None),
        }
    }

    /// The device handed to the consumer on `event`, if any.
    pub open spec fn emitted<P>(self, event: DiscoveryEvent<P>) -> Option<DiscoveredAranet<P>> {
        match self.sighted(event) {
            Ok(device) => device,
            Err(_) => None,
        }
    }

    /// The action asked for on `event`: the failure to decode a sensor's
    /// advertisement, and otherwise what the state after the event waits
    /// for.
    pub open spec fn action<P>(self, event: DiscoveryEvent<P>) -> DiscoveryAction {
        match self.sighted(event) {
            Err(e) => DiscoveryAction::Fail(e),
            Ok(_) => self.after(event).pending(),
        }
    }
}

/// Discovery over a fixed list of adapters, as a state machine: the caller
/// performs the action that is asked for and hands back what happened.
#[derive(Debug)]
pub struct Discovery {
    phases: Vec<AdapterPhase>,
    ready: usize,
    failed: bool,
    stopped: bool,
}

impl View for Discovery {
    type V = DiscoveryView;

    closed spec fn view(&self) -> DiscoveryView {
        DiscoveryView {
            phases: self.phases@,
            ready: self.ready as nat,
            failed: self.failed,
            stopped: self.stopped,
        }
    }
}

impl Discovery {
    #[verifier::type_invariant]
    spec fn inv(&self) -> bool {
        self@.wf()
    }

    /// Discovery over `adapters` adapters, none of them set up.
    pub fn new(adapters: usize) -> (d: Discovery)
        ensures
            d@ == DiscoveryView::initial(adapters as nat),
            d@.wf(),
    {
        let mut phases: Vec<AdapterPhase> = Vec::new();
        let mut i: usize = 0;
        while i < adapters
            invariant
                i <= adapters,
                phases@.len() == i,
                forall|j: int| 0 <= j < i ==> phases@[j] == AdapterPhase::Idle,
            decreases adapters - i,
        {
            phases.push(AdapterPhase::Idle);
            i += 1;
        }
        assert(phases@ =~= DiscoveryView::initial(adapters as nat).phases);
        Discovery { phases, ready: 0, failed: false, stopped: false }
    }

    /// Number of adapters.
    pub fn adapters(&self) -> (n: usize)
        ensures
            n == self@.phases.len(),
    {
        self.phases.len()
    }

    /// Phase of adapter `adapter`, absent when there is no such adapter.
    pub fn phase(&self, adapter: usize) -> (phase: Option<AdapterPhase>)
        ensures
            phase == (if adapter < self@.phases.len() {
                Some(self@.phases[adapter as int])
            } else {
                None
            }),
    {
        if adapter < self.phases.len() {
            Some(self.phases[adapter])
        } else {
            None
        }
    }

    /// Whether setting up an adapter failed.
    pub fn has_failed(&self) -> (b: bool)
        ensures
            b == self@.failed,
    {
        self.failed
    }

    /// Whether discovery was stopped.
    pub fn is_stopped(&self) -> (b: bool)
        ensures
            b == self@.stopped,
    {
        self.stopped
    }

    /// The action that discovery waits for.
    pub fn pending(&self) -> (action: DiscoveryAction)
        ensures
            action == self@.pending(),
    {
        proof {
            use_type_invariant(self);
        }
        pending_of(&self.phases, self.ready, self.failed, self.stopped)
    }

    /// Whether the sequence of sightings has ended: the event source of
    /// every adapter has ended, or discovery was stopped and no scan is
    /// left running.
    pub fn is_finished(&self) -> (b: bool)
        ensures
            b == (self@.pending() == DiscoveryAction::Finish),
    {
        match self.pending() {
            DiscoveryAction::Finish => true,
            _ => false,
        }
    }

    /// Takes `event` into account. Gives the next state, the sensor that
    /// the event shows, if any, and the action to perform next.
    pub fn step<P>(self, event: DiscoveryEvent<P>) -> (res: (
        Discovery,
        Option<DiscoveredAranet<P>>,
        DiscoveryAction,
    ))
        ensures
            res.0@ == self@.after(event),
            res.0@.wf(),
            res.1 == self@.emitted(event),
            res.2 == self@.action(event),
    {
        proof {
            use_type_invariant(&self);
            DiscoveryView::lemma_after_wf(self@, event);
            lemma_first_scanning(self@.phases, 0);
        }
        let Discovery { phases, ready, failed, stopped } = self;
        let mut phases = phases;
        let mut ready = ready;
        let mut failed = failed;
        let mut stopped = stopped;
        let pending = pending_of(&phases, ready, failed, stopped);
        let mut device: Option<DiscoveredAranet<P>> = None;
        let mut failure: Option<Error> = None;
        match event {
            DiscoveryEvent::ScanStarted => {
                match pending {
                    DiscoveryAction::StartScan { .. } => {
                        phases.set(ready, AdapterPhase::Scanning);
                    },
                    _ => {},
                }
            },
            DiscoveryEvent::Subscribed => {
                match pending {
                    DiscoveryAction::Subscribe { .. } => {
                        phases.set(ready, AdapterPhase::Listening);
                        ready = ready + 1;
                    },
                    _ => {},
                }
            },
            DiscoveryEvent::SetupFailed => {
                match pending {
                    DiscoveryAction::StartScan { .. } | DiscoveryAction::Subscribe { .. } => {
                        failed = true;
                    },
                    _ => {},
                }
            },
            DiscoveryEvent::Central { adapter, event } => {
                if !stopped && !failed && ready == phases.len() && adapter < phases.len()
                    && is_listening(phases[adapter]) {
                    match sighting(adapter, event) {
                        Ok(found) => {
                            device = found;
                        },
                        Err(e) => {
                            failure = Some(e);
                        },
                    }
                }
            },
            DiscoveryEvent::SourceEnded { adapter } => {
                if !stopped && !failed && ready == phases.len() && adapter < phases.len()
                    && is_listening(phases[adapter]) {
                    phases.set(adapter, AdapterPhase::Ended);
                }
            },
            DiscoveryEvent::Stopped => {
                stopped = true;
            },
            DiscoveryEvent::ScanStopped => {
                match pending {
                    DiscoveryAction::StopScan { adapter } => {
                        phases.set(adapter, AdapterPhase::Released);
                    },
                    _ => {},
                }
            },
        }
        let action = match failure {
            Some(e) => DiscoveryAction::Fail(e),
            None => pending_of(&phases, ready, failed, stopped),
        };
        (Discovery { phases, ready, failed, stopped }, device, action)
    }
}

/// Begins discovery over `adapters` adapters. Gives the state machine and
/// the first action: a scan on the first adapter, or the end of the
/// sequence where there is no adapter.
pub fn discover_aranet4(adapters: usize) -> (res: (Discovery, DiscoveryAction))
    ensures
        res.0@ == DiscoveryView::initial(adapters as nat),
        res.0@.wf(),
        res.1 == res.0@.pending(),
        adapters == 0 ==> res.1 == DiscoveryAction::Finish,
        adapters > 0 ==> res.1 == (DiscoveryAction::StartScan {
            adapter: 0,
            service: crate::uuids::AR4_SERVICE,
        }),
{
    let discovery = Discovery::new(adapters);
    let action = discovery.pending();
    (discovery, action)
}

/// Whether `phase` is the listening phase.
fn is_listening(phase: AdapterPhase) -> (b: bool)
    ensures
        b == (phase == AdapterPhase::Listening),
{
    match phase {
        AdapterPhase::Listening => true,
        _ => false,
    }
}

/// Whether a scan that discovery started, and did not stop, is on an
/// adapter in `phase`.
fn scans(phase: AdapterPhase) -> (b: bool)
    ensures
        b == spec_scans(phase),
{
    match phase {
        AdapterPhase::Scanning | AdapterPhase::Listening | AdapterPhase::Ended => true,
        _ => false,
    }
}

/// The action that a state with these parts waits for.
fn pending_of(phases: &Vec<AdapterPhase>, ready: usize, failed: bool, stopped: bool) -> (action:
    DiscoveryAction)
    requires
        ready <= phases@.len(),
    ensures
        action == (DiscoveryView { phases: phases@, ready: ready as nat, failed, stopped }).pending(),
        action matches DiscoveryAction::StopScan { adapter } ==> adapter < phases@.len()
            && adapter == spec_first_scanning(phases@, 0),
{
    let ghost view = DiscoveryView { phases: phases@, ready: ready as nat, failed, stopped };
    if stopped {
        let mut i: usize = 0;
        while i < phases.len()
            invariant
                i <= phases@.len(),
                stopped,
                view == (DiscoveryView { phases: phases@, ready: ready as nat, failed, stopped }),
                spec_first_scanning(phases@, 0) == spec_first_scanning(phases@, i as int),
            decreases phases@.len() - i,
        {
            if scans(phases[i]) {
                assert(spec_first_scanning(phases@, i as int) == i);
                return DiscoveryAction::StopScan { adapter: i };
            }
            assert(spec_first_scanning(phases@, i as int) == spec_first_scanning(
                phases@,
                i + 1,
            ));
            i += 1;
        }
        assert(spec_first_scanning(phases@, i as int) == phases@.len());
        DiscoveryAction::Finish
    } else if failed {
        DiscoveryAction::Fail(Error::TransportError)
    } else if ready < phases.len() {
        match phases[ready] {
            AdapterPhase::Idle => DiscoveryAction::StartScan {
                adapter: ready,
                service: crate::uuids::AR4_SERVICE,
            },
            AdapterPhase::Scanning => DiscoveryAction::Subscribe { adapter: ready },
            _ => DiscoveryAction::Fail(Error::TransportError),
        }
    } else {
        let mut i: usize = 0;
        while i < phases.len()
            invariant
                i <= phases@.len(),
                ready == phases@.len(),
                !stopped,
                !failed,
                view == (DiscoveryView { phases: phases@, ready: ready as nat, failed, stopped }),
                forall|j: int| 0 <= j < i ==> phases@[j] != AdapterPhase::Listening,
            decreases phases@.len() - i,
        {
            if is_listening(phases[i]) {
                assert(view.any_listening());
                return DiscoveryAction::Await;
            }
            i += 1;
        }
        assert(!view.any_listening());
        DiscoveryAction::Finish
    }
}

/// The first adapter with a running scan from `from` on is at `from` or
/// later, has a running scan, and no adapter between has one.
pub proof fn lemma_first_scanning(phases: Seq<AdapterPhase>, from: int)
    requires
        0 <= from <= phases.len(),
    ensures
        from <= spec_first_scanning(phases, from) <= phases.len(),
        spec_first_scanning(phases, from) < phases.len() ==> spec_scans(
            phases[spec_first_scanning(phases, from)],
        ),
        forall|j: int|
            from <= j < spec_first_scanning(phases, from) ==> !spec_scans(#[trigger] phases[j]),
    decreases phases.len() - from,
{
    if from < phases.len() && !spec_scans(phases[from]) {
        lemma_first_scanning(phases, from + 1);
    }
}

impl DiscoveryView {
    /// Every event leaves a well-formed state well-formed.
    pub proof fn lemma_after_wf<P>(self, event: DiscoveryEvent<P>)
        requires
            self.wf(),
        ensures
            self.after(event).wf(),
    {
        lemma_first_scanning(self.phases, 0);
    }

    /// Over no adapters discovery has finished from the start, and no event
    /// changes that or shows a sensor.
    pub proof fn lemma_no_adapters<P>(self, event: DiscoveryEvent<P>)
        requires
            self.wf(),
            self.phases.len() == 0,
        ensures
            Self::initial(0).wf(),
            Self::initial(0).phases.len() == 0,
            self.pending() == DiscoveryAction::Finish,
            self.after(event).wf(),
            self.after(event).phases.len() == 0,
            self.emitted(event) is None,
            self.action(event) == DiscoveryAction::Finish,
    {
    }

    /// With at least one adapter discovery starts by asking for a scan for
    /// the sensor's service on the first adapter.
    pub proof fn lemma_initial(adapters: nat)
        requires
            0 < adapters <= usize::MAX,
        ensures
            Self::initial(adapters).wf(),
            Self::initial(adapters).pending() == (DiscoveryAction::StartScan {
                adapter: 0,
                service: crate::uuids::AR4_SERVICE,
            }),
    {
    }

    /// A sensor is shown only by a manufacturer-data advertisement that a
    /// listening adapter delivers and that holds an entry under the
    /// sensor's company identifier. Every other event shows none.
    pub proof fn lemma_emits_only_sensor_advertisements<P>(self, event: DiscoveryEvent<P>)
        ensures
            self.emitted(event) matches Some(device) ==> {
                &&& event matches DiscoveryEvent::Central { adapter, event: central }
                &&& self.listens(adapter)
                &&& central matches CentralEvent::ManufacturerDataAdvertisement {
                    id,
                    manufacturer_data,
                }
                &&& manufacturer_data@.contains_key(MANUFACTURER_ID)
                &&& device.adapter == adapter
                &&& device.peripheral_id == id
                &&& spec_decode_advertisement(manufacturer_data@[MANUFACTURER_ID]@) == Ok::<
                    (ManufacturerData, Option<CurrentReadingDetailed>),
                    Error,
                >((device.manufacturer_data, device.current_reading))
            },
    {
    }

    /// Discovery that goes on finishes exactly when every adapter is set
    /// up and the event source of each has ended. Discovery that was
    /// stopped finishes exactly when every scan that it started has been
    /// stopped: no adapter is left scanning, listening or ended.
    pub proof fn lemma_finish(self)
        requires
            self.wf(),
        ensures
            !self.stopped ==> (self.pending() == DiscoveryAction::Finish <==> (!self.failed
                && self.ready == self.phases.len() && forall|i: int|
                0 <= i < self.phases.len() ==> #[trigger] self.phases[i] == AdapterPhase::Ended)),
            self.stopped ==> (self.pending() == DiscoveryAction::Finish <==> !self.any_scanning()),
            self.stopped && self.pending() == DiscoveryAction::Finish ==> forall|i: int|
                0 <= i < self.phases.len() ==> #[trigger] self.phases[i] == AdapterPhase::Idle
                    || self.phases[i] == AdapterPhase::Released,
    {
        lemma_first_scanning(self.phases, 0);
        if !self.stopped && !self.failed && self.ready == self.phases.len() {
            if self.any_listening() {
                let i = choose|i: int|
                    0 <= i < self.phases.len() && #[trigger] self.phases[i]
                        == AdapterPhase::Listening;
                assert(self.phases[i] != AdapterPhase::Ended);
            } else {
                assert forall|i: int| 0 <= i < self.phases.len() implies #[trigger] self.phases[i]
                    == AdapterPhase::Ended by {
                    assert(self.phases[i] == AdapterPhase::Listening || self.phases[i]
                        == AdapterPhase::Ended);
                }
            }
        }
        if self.stopped {
            let first = spec_first_scanning(self.phases, 0);
            if first < self.phases.len() {
                assert(spec_scans(self.phases[first]));
            } else if self.any_scanning() {
                let i = choose|i: int|
                    0 <= i < self.phases.len() && spec_scans(#[trigger] self.phases[i]);
                assert(!spec_scans(self.phases[i]));
            }
        }
    }

    /// Once discovery was stopped it stays stopped, shows no sensor, and
    /// asks for nothing but to stop the scans that it started, one adapter
    /// after the other: each answer releases the adapter asked about and
    /// moves on to a later one.
    pub proof fn lemma_release<P>(self, event: DiscoveryEvent<P>)
        requires
            self.wf(),
            self.stopped,
        ensures
            self.after(event).stopped,
            self.emitted(event) is None,
            self.pending() is StopScan || self.pending() == DiscoveryAction::Finish,
            self.pending() matches DiscoveryAction::StopScan { adapter } ==> {
                &&& adapter < self.phases.len()
                &&& spec_scans(self.phases[adapter as int])
                &&& self.after(DiscoveryEvent::<P>::ScanStopped).phases == self.phases.update(
                    adapter as int,
                    AdapterPhase::Released,
                )
                &&& spec_first_scanning(self.after(DiscoveryEvent::<P>::ScanStopped).phases, 0)
                    > adapter
            },
    {
        lemma_first_scanning(self.phases, 0);
        let first = spec_first_scanning(self.phases, 0);
        if first < self.phases.len() {
            let next = self.phases.update(first, AdapterPhase::Released);
            lemma_first_scanning(next, 0);
            let after = spec_first_scanning(next, 0);
            if after <= first {
                assert(spec_scans(next[after]));
                assert(!spec_scans(self.phases[after]) || after == first);
            }
        }
    }

    /// An adapter never goes back: its phase stays or moves along idle,
    /// scanning, listening, ended, released.
    pub proof fn lemma_phases_advance<P>(self, event: DiscoveryEvent<P>, adapter: int)
        requires
            self.wf(),
            0 <= adapter < self.phases.len(),
        ensures
            self.after(event).phases.len() == self.phases.len(),
            spec_phase_rank(self.phases[adapter]) <= spec_phase_rank(
                self.after(event).phases[adapter],
            ),
    {
        lemma_first_scanning(self.phases, 0);
    }
}

} // verus!
