//! Typed access to a connected sensor.
//!
//! Talking to a device is an exchange: the caller performs the action that
//! the exchange asks for on the transport and hands back what happened,
//! until the exchange completes with a value or fails. No exchange keeps
//! anything from an earlier one: every read asks the device again.

use vstd::prelude::*;
use vstd::utf8::{decode_utf8, valid_utf8};
use crate::characteristics::{Characteristic, READ};
use crate::error::Error;
use crate::reading::{CurrentReading, CurrentReadingDetailed};
use crate::uuids;
use crate::wire::{le_u16, spec_le_u16};

verus! {

/// What can be read from a sensor.
#[derive(Clone, Copy, Debug, PartialEq, Eq, Structural)]
pub enum Query {
    /// Read the basic current reading.
    CurrentReadings,
    /// Read the detailed current reading.
    CurrentReadingsDetails,
    /// Read the seconds between two samples.
    Interval,
    /// Read the device name.
    Name,
    /// Read the firmware version string.
    Version,
    /// Read the seconds since the last sample.
    LastUpdateAge,
    /// Read the number of stored samples.
    TotalReadings,
}

/// What is asked of a device.
#[derive(Clone, Copy, Debug, PartialEq, Eq, Structural)]
pub enum Operation {
    /// Check that the device is a connected sensor.
    Open,
    /// Read a value from a sensor.
    Read(Query),
}

/// What an exchange waits for.
#[derive(Clone, Copy, Debug, PartialEq, Eq, Structural)]
pub enum Stage {
    /// The connection state.
    Connection,
    /// The list of services; `discovered` once discovery was run.
    Services { discovered: bool },
    /// The end of service discovery.
    ServiceDiscovery,
    /// The bytes of the characteristic.
    Data,
    /// Nothing: the exchange is over.
    Finished,
}

/// What the transport reports back to an exchange.
pub enum DeviceEvent {
    /// Whether the device is connected.
    Connected(bool),
    /// The identifiers of the services that the device is known to have.
    Services(Vec<u128>),
    /// Service discovery has run.
    ServicesDiscovered,
    /// The bytes read from the characteristic.
    Data(Vec<u8>),
    /// The transport failed to do what was asked.
    TransportFailed,
}

/// A sensor that was found connected and exposing the sensor service. Only
/// a completed [`Operation::Open`] exchange gives one.
#[derive(Debug)]
pub struct Aranet4 {
    service: u128,
}

/// What a completed exchange gives.
#[derive(Debug)]
pub enum Value {
    Opened(Aranet4),
    Reading(CurrentReading),
    Detailed(CurrentReadingDetailed),
    Number(u16),
    Text(String),
}

/// What an exchange asks of its caller next.
#[derive(Debug)]
pub enum DeviceAction {
    /// Ask whether the device is connected.
    QueryConnected,
    /// List the services that the device is known to have.
    ListServices,
    /// Run service discovery.
    DiscoverServices,
    /// Read the characteristic.
    Read(Characteristic),
    /// The exchange is over and gives this value.
    Complete(Value),
    /// The exchange is over and failed.
    Fail(Error),
}

/// Mathematical content of a [`Value`].
pub ghost enum ValueView {
    Opened,
    Reading(CurrentReading),
    Detailed(CurrentReadingDetailed),
    Number(u16),
    Text(Seq<char>),
}

/// Mathematical content of a [`DeviceAction`].
pub ghost enum DeviceActionView {
    QueryConnected,
    ListServices,
    DiscoverServices,
    Read(Characteristic),
    Complete(ValueView),
    Fail(Error),
}

impl View for Value {
    type V = ValueView;

    open spec fn view(&self) -> ValueView {
        match *self {
            Value::Opened(_) => ValueView::Opened,
            Value::Reading(r) => ValueView::Reading(r),
            Value::Detailed(r) => ValueView::Detailed(r),
            Value::Number(n) => ValueView::Number(n),
            Value::Text(s) => ValueView::Text(s@),
        }
    }
}

impl View for DeviceAction {
    type V = DeviceActionView;

    open spec fn view(&self) -> DeviceActionView {
        match *self {
            DeviceAction::QueryConnected => DeviceActionView::QueryConnected,
            DeviceAction::ListServices => DeviceActionView::ListServices,
            DeviceAction::DiscoverServices => DeviceActionView::DiscoverServices,
            DeviceAction::Read(c) => DeviceActionView::Read(c),
            DeviceAction::Complete(v) => DeviceActionView::Complete(v@),
            DeviceAction::Fail(e) => DeviceActionView::Fail(e),
        }
    }
}

/// The number that a two-byte characteristic holds, or the failure to
/// decode it.
pub open spec fn spec_decode_u16(raw: Seq<u8>) -> Result<u16, Error> {
    if raw.len() == 2 {
        Ok(spec_le_u16(raw[0], raw[1]))
    } else {
        Err(Error::MalformedInput)
    }
}

/// The text that a characteristic holds, or the failure to decode it.
pub open spec fn spec_decode_text(raw: Seq<u8>) -> Result<Seq<char>, Error> {
    if valid_utf8(raw) {
        Ok(decode_utf8(raw))
    } else {
        Err(Error::EncodingError)
    }
}

/// Whether `service` is among `services`.
pub open spec fn spec_has_service(services: Seq<u128>, service: u128) -> bool {
    exists|i: int| 0 <= i < services.len() && #[trigger] services[i] == service
}

/// Decodes a characteristic that holds a little-endian 16-bit number. Fails
/// unless it is two bytes long.
pub fn decode_u16(raw: &[u8]) -> (res: Result<u16, Error>)
    ensures
        res == spec_decode_u16(raw@),
        res is Ok <==> raw@.len() == 2,
{
    if raw.len() == 2 {
        Ok(le_u16(raw[0], raw[1]))
    } else {
        Err(Error::MalformedInput)
    }
}

/// Converts bytes to text with `String::from_utf8`. Assumed of it, not
/// proved: the conversion succeeds exactly on valid UTF-8, and the text then
/// holds the characters that the bytes encode.
#[verifier::external_body]
fn string_from_utf8(raw: Vec<u8>) -> (res: Option<String>)
    ensures
        res is Some <==> valid_utf8(raw@),
        res matches Some(s) ==> s@ == decode_utf8(raw@),
{
    match String::from_utf8(raw) {
        Ok(s) => Some(s),
        Err(_) => None,
    }
}

/// Decodes a characteristic that holds text. Fails unless it is valid
/// UTF-8.
pub fn decode_text(raw: Vec<u8>) -> (res: Result<String, Error>)
    ensures
        res is Ok <==> valid_utf8(raw@),
        res matches Ok(s) ==> spec_decode_text(raw@) == Ok::<Seq<char>, Error>(s@),
        res matches Err(e) ==> e == Error::EncodingError,
{
    match string_from_utf8(raw) {
        Some(s) => Ok(s),
        None => Err(Error::EncodingError),
    }
}

/// Whether `service` is among `services`.
pub fn has_service(services: &[u128], service: u128) -> (found: bool)
    ensures
        found == spec_has_service(services@, service),
{
    let mut i: usize = 0;
    while i < services.len()
        invariant
            i <= services@.len(),
            forall|j: int| 0 <= j < i ==> services@[j] != service,
        decreases services@.len() - i,
    {
        if services[i] == service {
            return true;
        }
        i += 1;
    }
    false
}

impl Query {
    /// Identifier of the characteristic that the query reads.
    pub open spec fn spec_target(self) -> u128 {
        match self {
            Query::CurrentReadings => uuids::AR4_READ_CURRENT_READINGS,
            Query::CurrentReadingsDetails => uuids::AR4_READ_CURRENT_READINGS_DET,
            Query::Interval => uuids::AR4_READ_INTERVAL,
            Query::Name => uuids::GENERIC_READ_DEVICE_NAME,
            Query::Version => uuids::COMMON_READ_SW_REV,
            Query::LastUpdateAge => uuids::AR4_READ_SECONDS_SINCE_UPDATE,
            Query::TotalReadings => uuids::AR4_READ_TOTAL_READINGS,
        }
    }

    /// The characteristic that the query reads, from the sensor's table.
    pub open spec fn spec_characteristic(self) -> Characteristic {
        Characteristic::spec_lookup(self.spec_target()).unwrap()
    }

    /// What the bytes read for the query decode to.
    pub open spec fn spec_decode(self, raw: Seq<u8>) -> Result<ValueView, Error> {
        match self {
            Query::CurrentReadings => if CurrentReading::spec_decodable(raw) {
                Ok(ValueView::Reading(CurrentReading::spec_parse(raw)))
            } else {
                Err(Error::MalformedInput)
            },
            Query::CurrentReadingsDetails => if CurrentReadingDetailed::spec_decodable(raw) {
                Ok(ValueView::Detailed(CurrentReadingDetailed::spec_parse(raw)))
            } else {
                Err(Error::MalformedInput)
            },
            Query::Name | Query::Version => match spec_decode_text(raw) {
                Ok(text) => Ok(ValueView::Text(text)),
                Err(e) => Err(e),
            },
            _ => match spec_decode_u16(raw) {
                Ok(n) => Ok(ValueView::Number(n)),
                Err(e) => Err(e),
            },
        }
    }

    /// The characteristic that the query reads. It is an entry of the
    /// sensor's table and can be read.
    pub fn characteristic(&self) -> (c: Characteristic)
        ensures
            c == self.spec_characteristic(),
            Characteristic::spec_lookup(c.uuid) == Some(c),
            c.uuid == self.spec_target(),
            c.spec_readable(),
    {
        let (uuid, service_uuid): (u128, u128) = match self {
            Query::Name => (uuids::GENERIC_READ_DEVICE_NAME, uuids::GENERIC_SERVICE),
            Query::Version => (uuids::COMMON_READ_SW_REV, uuids::COMMON_SERVICE),
            Query::CurrentReadings => (uuids::AR4_READ_CURRENT_READINGS, uuids::AR4_SERVICE),
            Query::CurrentReadingsDetails => (
                uuids::AR4_READ_CURRENT_READINGS_DET,
                uuids::AR4_SERVICE,
            ),
            Query::Interval => (uuids::AR4_READ_INTERVAL, uuids::AR4_SERVICE),
            Query::LastUpdateAge => (uuids::AR4_READ_SECONDS_SINCE_UPDATE, uuids::AR4_SERVICE),
            Query::TotalReadings => (uuids::AR4_READ_TOTAL_READINGS, uuids::AR4_SERVICE),
        };
        assert(READ & READ != 0) by (bit_vector)
            requires
                READ == 0x02u8,
        ;
        Characteristic { uuid, service_uuid, properties: READ }
    }

    /// Decodes the bytes read for the query.
    pub fn decode(&self, raw: Vec<u8>) -> (res: Result<Value, Error>)
        ensures
            res matches Ok(v) ==> self.spec_decode(raw@) == Ok::<ValueView, Error>(v@),
            res matches Err(e) ==> self.spec_decode(raw@) == Err::<ValueView, Error>(e),
    {
        match self {
            Query::CurrentReadings => match CurrentReading::parse(raw.as_slice()) {
                Ok(r) => Ok(Value::Reading(r)),
                Err(e) => Err(e),
            },
            Query::CurrentReadingsDetails => match CurrentReadingDetailed::parse(
                raw.as_slice(),
            ) {
                Ok(r) => Ok(Value::Detailed(r)),
                Err(e) => Err(e),
            },
            Query::Name | Query::Version => match decode_text(raw) {
                Ok(s) => Ok(Value::Text(s)),
                Err(e) => Err(e),
            },
            _ => match decode_u16(raw.as_slice()) {
                Ok(n) => Ok(Value::Number(n)),
                Err(e) => Err(e),
            },
        }
    }
}

/// The stage after `event` arrives in stage `stage` of an exchange for
/// `operation`, and the action asked for then. An event that does not
/// answer what the stage waits for ends the exchange as a failure of the
/// transport.
pub open spec fn spec_step(operation: Operation, stage: Stage, event: DeviceEvent) -> (
    Stage,
    DeviceActionView,
) {
    match (stage, event) {
        (Stage::Connection, DeviceEvent::Connected(connected)) => {
            if !connected {
                (Stage::Finished, DeviceActionView::Fail(Error::NotConnected))
            } else {
                match operation {
                    Operation::Open => (
                        Stage::Services { discovered: false },
                        DeviceActionView::ListServices,
                    ),
                    Operation::Read(query) => (
                        Stage::Data,
                        DeviceActionView::Read(query.spec_characteristic()),
                    ),
                }
            }
        },
        (Stage::Services { discovered }, DeviceEvent::Services(services)) => {
            if services@.len() == 0 && !discovered {
                (Stage::ServiceDiscovery, DeviceActionView::DiscoverServices)
            } else if spec_has_service(services@, uuids::AR4_SERVICE) {
                (Stage::Finished, DeviceActionView::Complete(ValueView::Opened))
            } else {
                (Stage::Finished, DeviceActionView::Fail(Error::UnsupportedDevice))
            }
        },
        (Stage::ServiceDiscovery, DeviceEvent::ServicesDiscovered) => (
            Stage::Services { discovered: true },
            DeviceActionView::ListServices,
        ),
        (Stage::Data, DeviceEvent::Data(raw)) => match operation {
            Operation::Open => (Stage::Finished, DeviceActionView::Fail(Error::TransportError)),
            Operation::Read(query) => match query.spec_decode(raw@) {
                Ok(value) => (Stage::Finished, DeviceActionView::Complete(value)),
                Err(e) => (Stage::Finished, DeviceActionView::Fail(e)),
            },
        },
        _ => (Stage::Finished, DeviceActionView::Fail(Error::TransportError)),
    }
}

/// Position of a stage in an exchange.
pub open spec fn spec_stage_rank(stage: Stage) -> nat {
    match stage {
        Stage::Connection => 0,
        Stage::Services { discovered: false } => 1,
        Stage::ServiceDiscovery => 2,
        Stage::Services { discovered: true } => 3,
        Stage::Data => 4,
        Stage::Finished => 5,
    }
}

/// Every event moves an unfinished exchange to a later stage, so that an
/// exchange is over after at most five events. It is over exactly when it
/// completes or fails, and asks for nothing after that.
pub proof fn lemma_exchange_advances(operation: Operation, stage: Stage, event: DeviceEvent)
    ensures
        stage != Stage::Finished ==> spec_stage_rank(stage) < spec_stage_rank(
            spec_step(operation, stage, event).0,
        ),
        spec_step(operation, stage, event).0 == Stage::Finished <==> (spec_step(
            operation,
            stage,
            event,
        ).1 is Complete || spec_step(operation, stage, event).1 is Fail),
        stage == Stage::Finished ==> spec_step(operation, stage, event) == (
            Stage::Finished,
            DeviceActionView::Fail(Error::TransportError),
        ),
{
}

/// Whatever is asked of a device, the connection is checked first: a
/// device that is not connected fails the exchange with `NotConnected`
/// before anything is read, and a failure of the transport fails it with
/// `TransportError` at every stage.
pub proof fn lemma_connection_first(operation: Operation, stage: Stage)
    ensures
        spec_step(operation, Stage::Connection, DeviceEvent::Connected(false)) == (
            Stage::Finished,
            DeviceActionView::Fail(Error::NotConnected),
        ),
        spec_step(operation, stage, DeviceEvent::TransportFailed) == (
            Stage::Finished,
            DeviceActionView::Fail(Error::TransportError),
        ),
{
}

/// Opening a connected device completes exactly when the sensor service is
/// among its services, which are discovered first if none are known, and
/// fails with `UnsupportedDevice` otherwise.
pub proof fn lemma_open(services: Vec<u128>, discovered: bool)
    ensures
        spec_step(Operation::Open, Stage::Connection, DeviceEvent::Connected(true)) == (
            Stage::Services { discovered: false },
            DeviceActionView::ListServices,
        ),
        services@.len() == 0 ==> spec_step(
            Operation::Open,
            Stage::Services { discovered: false },
            DeviceEvent::Services(services),
        ) == (Stage::ServiceDiscovery, DeviceActionView::DiscoverServices),
        spec_step(Operation::Open, Stage::ServiceDiscovery, DeviceEvent::ServicesDiscovered) == (
            Stage::Services { discovered: true },
            DeviceActionView::ListServices,
        ),
        services@.len() > 0 || discovered ==> spec_step(
            Operation::Open,
            Stage::Services { discovered },
            DeviceEvent::Services(services),
        ) == (
            Stage::Finished,
            if spec_has_service(services@, uuids::AR4_SERVICE) {
                DeviceActionView::Complete(ValueView::Opened)
            } else {
                DeviceActionView::Fail(Error::UnsupportedDevice)
            },
        ),
{
}

/// Reading from a connected device asks for the characteristic of the
/// query and gives what its bytes decode to.
pub proof fn lemma_read(query: Query, raw: Vec<u8>)
    ensures
        spec_step(Operation::Read(query), Stage::Connection, DeviceEvent::Connected(true)) == (
            Stage::Data,
            DeviceActionView::Read(query.spec_characteristic()),
        ),
        spec_step(Operation::Read(query), Stage::Data, DeviceEvent::Data(raw)) == (
            Stage::Finished,
            match query.spec_decode(raw@) {
                Ok(value) => DeviceActionView::Complete(value),
                Err(e) => DeviceActionView::Fail(e),
            },
        ),
{
}

/// One exchange with a device.
#[derive(Debug)]
pub struct Exchange {
    operation: Operation,
    stage: Stage,
}

impl Exchange {
    /// What the exchange is for.
    pub closed spec fn spec_operation(&self) -> Operation {
        self.operation
    }

    /// What the exchange waits for.
    pub closed spec fn spec_stage(&self) -> Stage {
        self.stage
    }

    /// Begins an exchange. Its first action is to ask whether the device is
    /// connected.
    fn begin(operation: Operation) -> (res: (Exchange, DeviceAction))
        ensures
            res.0.spec_operation() == operation,
            res.0.spec_stage() == Stage::Connection,
            res.1@ == DeviceActionView::QueryConnected,
    {
        (Exchange { operation, stage: Stage::Connection }, DeviceAction::QueryConnected)
    }

    /// What the exchange is for.
    pub fn operation(&self) -> (operation: Operation)
        ensures
            operation == self.spec_operation(),
    {
        self.operation
    }

    /// What the exchange waits for.
    pub fn stage(&self) -> (stage: Stage)
        ensures
            stage == self.spec_stage(),
    {
        self.stage
    }

    /// Whether the exchange is over.
    pub fn is_finished(&self) -> (b: bool)
        ensures
            b == (self.spec_stage() == Stage::Finished),
    {
        match self.stage {
            Stage::Finished => true,
            _ => false,
        }
    }

    /// Takes `event` into account. Gives the exchange in its next stage and
    /// the action to perform next.
    pub fn step(self, event: DeviceEvent) -> (res: (Exchange, DeviceAction))
        ensures
            res.0.spec_operation() == self.spec_operation(),
            (res.0.spec_stage(), res.1@) == spec_step(
                self.spec_operation(),
                self.spec_stage(),
                event,
            ),
    {
        let Exchange { operation, stage } = self;
        let failed = (
            Exchange { operation, stage: Stage::Finished },
            DeviceAction::Fail(Error::TransportError),
        );
        match stage {
            Stage::Connection => match event {
                DeviceEvent::Connected(connected) => {
                    if !connected {
                        (
                            Exchange { operation, stage: Stage::Finished },
                            DeviceAction::Fail(Error::NotConnected),
                        )
                    } else {
                        match operation {
                            Operation::Open => (
                                Exchange { operation, stage: Stage::Services { discovered: false } },
                                DeviceAction::ListServices,
                            ),
                            Operation::Read(query) => (
                                Exchange { operation, stage: Stage::Data },
                                DeviceAction::Read(query.characteristic()),
                            ),
                        }
                    }
                },
                _ => failed,
            },
            Stage::Services { discovered } => match event {
                DeviceEvent::Services(services) => {
                    if services.len() == 0 && !discovered {
                        (
                            Exchange { operation, stage: Stage::ServiceDiscovery },
                            DeviceAction::DiscoverServices,
                        )
                    } else if has_service(services.as_slice(), uuids::AR4_SERVICE) {
                        (
                            Exchange { operation, stage: Stage::Finished },
                            DeviceAction::Complete(
                                Value::Opened(Aranet4 { service: uuids::AR4_SERVICE }),
                            ),
                        )
                    } else {
                        (
                            Exchange { operation, stage: Stage::Finished },
                            DeviceAction::Fail(Error::UnsupportedDevice),
                        )
                    }
                },
                _ => failed,
            },
            Stage::ServiceDiscovery => match event {
                DeviceEvent::ServicesDiscovered => (
                    Exchange { operation, stage: Stage::Services { discovered: true } },
                    DeviceAction::ListServices,
                ),
                _ => failed,
            },
            Stage::Data => match event {
                DeviceEvent::Data(raw) => match operation {
                    Operation::Read(query) => match query.decode(raw) {
                        Ok(value) => (
                            Exchange { operation, stage: Stage::Finished },
                            DeviceAction::Complete(value),
                        ),
                        Err(e) => (
                            Exchange { operation, stage: Stage::Finished },
                            DeviceAction::Fail(e),
                        ),
                    },
                    Operation::Open => failed,
                },
                _ => failed,
            },
            Stage::Finished => failed,
        }
    }
}

impl Aranet4 {
    /// Identifier of the service by which the device was recognised.
    pub closed spec fn spec_service(&self) -> u128 {
        self.service
    }

    #[verifier::type_invariant]
    spec fn inv(&self) -> bool {
        self.service == uuids::AR4_SERVICE
    }

    /// Begins opening a device: the exchange checks that the device is
    /// connected, has its services discovered if none are known, and
    /// completes with a handle when the sensor service is among them.
    pub fn new() -> (res: (Exchange, DeviceAction))
        ensures
            res.0.spec_operation() == Operation::Open,
            res.0.spec_stage() == Stage::Connection,
            res.1@ == DeviceActionView::QueryConnected,
    {
        Exchange::begin(Operation::Open)
    }

    /// Identifier of the service by which the device was recognised.
    pub fn service(&self) -> (service: u128)
        ensures
            service == self.spec_service(),
            service == uuids::AR4_SERVICE,
    {
        proof {
            use_type_invariant(self);
        }
        self.service
    }

    /// Begins reading the basic current reading.
    pub fn current_readings(&self) -> (res: (Exchange, DeviceAction))
        ensures
            res.0.spec_operation() == Operation::Read(Query::CurrentReadings),
            res.0.spec_stage() == Stage::Connection,
            res.1@ == DeviceActionView::QueryConnected,
    {
        Exchange::begin(Operation::Read(Query::CurrentReadings))
    }

    /// Begins reading the detailed current reading.
    pub fn current_readings_details(&self) -> (res: (Exchange, DeviceAction))
        ensures
            res.0.spec_operation() == Operation::Read(Query::CurrentReadingsDetails),
            res.0.spec_stage() == Stage::Connection,
            res.1@ == DeviceActionView::QueryConnected,
    {
        Exchange::begin(Operation::Read(Query::CurrentReadingsDetails))
    }

    /// Begins reading the interval between two samples, in seconds.
    pub fn interval(&self) -> (res: (Exchange, DeviceAction))
        ensures
            res.0.spec_operation() == Operation::Read(Query::Interval),
            res.0.spec_stage() == Stage::Connection,
            res.1@ == DeviceActionView::QueryConnected,
    {
        Exchange::begin(Operation::Read(Query::Interval))
    }

    /// Begins reading the name of the device.
    pub fn name(&self) -> (res: (Exchange, DeviceAction))
        ensures
            res.0.spec_operation() == Operation::Read(Query::Name),
            res.0.spec_stage() == Stage::Connection,
            res.1@ == DeviceActionView::QueryConnected,
    {
        Exchange::begin(Operation::Read(Query::Name))
    }

    /// Begins reading the version string of the firmware.
    pub fn version(&self) -> (res: (Exchange, DeviceAction))
        ensures
            res.0.spec_operation() == Operation::Read(Query::Version),
            res.0.spec_stage() == Stage::Connection,
            res.1@ == DeviceActionView::QueryConnected,
    {
        Exchange::begin(Operation::Read(Query::Version))
    }

    /// Begins reading the seconds since the last sample was taken.
    pub fn last_update_age(&self) -> (res: (Exchange, DeviceAction))
        ensures
            res.0.spec_operation() == Operation::Read(Query::LastUpdateAge),
            res.0.spec_stage() == Stage::Connection,
            res.1@ == DeviceActionView::QueryConnected,
    {
        Exchange::begin(Operation::Read(Query::LastUpdateAge))
    }

    /// Begins reading the number of samples stored on the device.
    pub fn total_readings(&self) -> (res: (Exchange, DeviceAction))
        ensures
            res.0.spec_operation() == Operation::Read(Query::TotalReadings),
            res.0.spec_stage() == Stage::Connection,
            res.1@ == DeviceActionView::QueryConnected,
    {
        Exchange::begin(Operation::Read(Query::TotalReadings))
    }
}

} // verus!
