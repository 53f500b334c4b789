//! The enums of `gtfs-realtime.proto`.
//!
//! Numbers are taken verbatim from the specification and gaps are kept: e.g.
//! 4 is undefined in `TripDescriptor.ScheduleRelationship`, so a 4 yields an
//! `UnknownEnumValue` anomaly. Filling the gap would hide the producer's bug.
use vstd::prelude::*;
use crate::decode::ProtoEnum;

verus! {

/// `FeedHeader.incrementality`; the default is `FullDataset`.
#[derive(Debug, Clone, Copy, PartialEq, Eq, Hash, Structural)]
pub enum Incrementality {
    FullDataset,
    Differential,
}

impl ProtoEnum for Incrementality {
    open spec fn spec_enum_name() -> &'static str {
        "FeedHeader.Incrementality"
    }

    open spec fn spec_from_i32(value: i32) -> Option<Self> {
        if value == 0 {
            Some(Incrementality::FullDataset)
        } else if value == 1 {
            Some(Incrementality::Differential)
        } else {
            None
        }
    }

    open spec fn spec_value(self) -> i32 {
        match self {
            Incrementality::FullDataset => 0,
            Incrementality::Differential => 1,
        }
    }

    fn enum_name() -> (r: &'static str) {
        "FeedHeader.Incrementality"
    }

    fn from_i32(value: i32) -> (r: Option<Self>) {
        match value {
            0 => Some(Incrementality::FullDataset),
            1 => Some(Incrementality::Differential),
            _ => None,
        }
    }

    proof fn law_round_trip(e: Self) {
    }

    proof fn law_value_of_variant(v: i32) {
    }
}

impl Incrementality {
    /// The number the specification gives this value.
    pub fn as_i32(self) -> (r: i32)
        ensures
            r == self.spec_value(),
    {
        match self {
            Incrementality::FullDataset => 0,
            Incrementality::Differential => 1,
        }
    }

    /// The name the specification gives this value.
    pub fn proto_name(self) -> (r: &'static str)
        ensures
            r == spec_incrementality_name(self),
    {
        match self {
            Incrementality::FullDataset => "FullDataset",
            Incrementality::Differential => "Differential",
        }
    }
}

/// The name of each `Incrementality` value.
pub open spec fn spec_incrementality_name(e: Incrementality) -> &'static str {
    match e {
        Incrementality::FullDataset => "FullDataset",
        Incrementality::Differential => "Differential",
    }
}

/// `TripDescriptor.schedule_relationship`.
///
/// 4 is undefined (skipped in the specification). `Added` (1) is deprecated but still a valid value.
#[derive(Debug, Clone, Copy, PartialEq, Eq, Hash, Structural)]
pub enum TripScheduleRelationship {
    Scheduled,
    Added,
    Unscheduled,
    Canceled,
    Replacement,
    Duplicated,
    Deleted,
    New,
}

impl ProtoEnum for TripScheduleRelationship {
    open spec fn spec_enum_name() -> &'static str {
        "TripDescriptor.ScheduleRelationship"
    }

    open spec fn spec_from_i32(value: i32) -> Option<Self> {
        if value == 0 {
            Some(TripScheduleRelationship::Scheduled)
        } else if value == 1 {
            Some(TripScheduleRelationship::Added)
        } else if value == 2 {
            Some(TripScheduleRelationship::Unscheduled)
        } else if value == 3 {
            Some(TripScheduleRelationship::Canceled)
        } else if value == 5 {
            Some(TripScheduleRelationship::Replacement)
        } else if value == 6 {
            Some(TripScheduleRelationship::Duplicated)
        } else if value == 7 {
            Some(TripScheduleRelationship::Deleted)
        } else if value == 8 {
            Some(TripScheduleRelationship::New)
        } else {
            None
        }
    }

    open spec fn spec_value(self) -> i32 {
        match self {
            TripScheduleRelationship::Scheduled => 0,
            TripScheduleRelationship::Added => 1,
            TripScheduleRelationship::Unscheduled => 2,
            TripScheduleRelationship::Canceled => 3,
            TripScheduleRelationship::Replacement => 5,
            TripScheduleRelationship::Duplicated => 6,
            TripScheduleRelationship::Deleted => 7,
            TripScheduleRelationship::New => 8,
        }
    }

    fn enum_name() -> (r: &'static str) {
        "TripDescriptor.ScheduleRelationship"
    }

    fn from_i32(value: i32) -> (r: Option<Self>) {
        match value {
            0 => Some(TripScheduleRelationship::Scheduled),
            1 => Some(TripScheduleRelationship::Added),
            2 => Some(TripScheduleRelationship::Unscheduled),
            3 => Some(TripScheduleRelationship::Canceled),
            5 => Some(TripScheduleRelationship::Replacement),
            6 => Some(TripScheduleRelationship::Duplicated),
            7 => Some(TripScheduleRelationship::Deleted),
            8 => Some(TripScheduleRelationship::New),
            _ => None,
        }
    }

    proof fn law_round_trip(e: Self) {
    }

    proof fn law_value_of_variant(v: i32) {
    }
}

impl TripScheduleRelationship {
    /// The number the specification gives this value.
    pub fn as_i32(self) -> (r: i32)
        ensures
            r == self.spec_value(),
    {
        match self {
            TripScheduleRelationship::Scheduled => 0,
            TripScheduleRelationship::Added => 1,
            TripScheduleRelationship::Unscheduled => 2,
            TripScheduleRelationship::Canceled => 3,
            TripScheduleRelationship::Replacement => 5,
            TripScheduleRelationship::Duplicated => 6,
            TripScheduleRelationship::Deleted => 7,
            TripScheduleRelationship::New => 8,
        }
    }

    /// The name the specification gives this value.
    pub fn proto_name(self) -> (r: &'static str)
        ensures
            r == spec_trip_schedule_relationship_name(self),
    {
        match self {
            TripScheduleRelationship::Scheduled => "Scheduled",
            TripScheduleRelationship::Added => "Added",
            TripScheduleRelationship::Unscheduled => "Unscheduled",
            TripScheduleRelationship::Canceled => "Canceled",
            TripScheduleRelationship::Replacement => "Replacement",
            TripScheduleRelationship::Duplicated => "Duplicated",
            TripScheduleRelationship::Deleted => "Deleted",
            TripScheduleRelationship::New => "New",
        }
    }
}

/// The name of each `TripScheduleRelationship` value.
pub open spec fn spec_trip_schedule_relationship_name(e: TripScheduleRelationship) -> &'static str {
    match e {
        TripScheduleRelationship::Scheduled => "Scheduled",
        TripScheduleRelationship::Added => "Added",
        TripScheduleRelationship::Unscheduled => "Unscheduled",
        TripScheduleRelationship::Canceled => "Canceled",
        TripScheduleRelationship::Replacement => "Replacement",
        TripScheduleRelationship::Duplicated => "Duplicated",
        TripScheduleRelationship::Deleted => "Deleted",
        TripScheduleRelationship::New => "New",
    }
}

/// `StopTimeUpdate.schedule_relationship`; the default is `Scheduled`.
#[derive(Debug, Clone, Copy, PartialEq, Eq, Hash, Structural)]
pub enum StopTimeScheduleRelationship {
    Scheduled,
    Skipped,
    NoData,
    Unscheduled,
}

impl ProtoEnum for StopTimeScheduleRelationship {
    open spec fn spec_enum_name() -> &'static str {
        "StopTimeUpdate.ScheduleRelationship"
    }

    open spec fn spec_from_i32(value: i32) -> Option<Self> {
        if value == 0 {
            Some(StopTimeScheduleRelationship::Scheduled)
        } else if value == 1 {
            Some(StopTimeScheduleRelationship::Skipped)
        } else if value == 2 {
            Some(StopTimeScheduleRelationship::NoData)
        } else if value == 3 {
            Some(StopTimeScheduleRelationship::Unscheduled)
        } else {
            None
        }
    }

    open spec fn spec_value(self) -> i32 {
        match self {
            StopTimeScheduleRelationship::Scheduled => 0,
            StopTimeScheduleRelationship::Skipped => 1,
            StopTimeScheduleRelationship::NoData => 2,
            StopTimeScheduleRelationship::Unscheduled => 3,
        }
    }

    fn enum_name() -> (r: &'static str) {
        "StopTimeUpdate.ScheduleRelationship"
    }

    fn from_i32(value: i32) -> (r: Option<Self>) {
        match value {
            0 => Some(StopTimeScheduleRelationship::Scheduled),
            1 => Some(StopTimeScheduleRelationship::Skipped),
            2 => Some(StopTimeScheduleRelationship::NoData),
            3 => Some(StopTimeScheduleRelationship::Unscheduled),
            _ => None,
        }
    }

    proof fn law_round_trip(e: Self) {
    }

    proof fn law_value_of_variant(v: i32) {
    }
}

impl StopTimeScheduleRelationship {
    /// The number the specification gives this value.
    pub fn as_i32(self) -> (r: i32)
        ensures
            r == self.spec_value(),
    {
        match self {
            StopTimeScheduleRelationship::Scheduled => 0,
            StopTimeScheduleRelationship::Skipped => 1,
            StopTimeScheduleRelationship::NoData => 2,
            StopTimeScheduleRelationship::Unscheduled => 3,
        }
    }

    /// The name the specification gives this value.
    pub fn proto_name(self) -> (r: &'static str)
        ensures
            r == spec_stop_time_schedule_relationship_name(self),
    {
        match self {
            StopTimeScheduleRelationship::Scheduled => "Scheduled",
            StopTimeScheduleRelationship::Skipped => "Skipped",
            StopTimeScheduleRelationship::NoData => "NoData",
            StopTimeScheduleRelationship::Unscheduled => "Unscheduled",
        }
    }
}

/// The name of each `StopTimeScheduleRelationship` value.
pub open spec fn spec_stop_time_schedule_relationship_name(e: StopTimeScheduleRelationship) -> &'static str {
    match e {
        StopTimeScheduleRelationship::Scheduled => "Scheduled",
        StopTimeScheduleRelationship::Skipped => "Skipped",
        StopTimeScheduleRelationship::NoData => "NoData",
        StopTimeScheduleRelationship::Unscheduled => "Unscheduled",
    }
}

/// `StopTimeProperties.pickup_type` / `drop_off_type`.
///
/// The specification's `NONE` value is the variant `NotAvailable`; its
/// `proto_name` is still `"None"`.
#[derive(Debug, Clone, Copy, PartialEq, Eq, Hash, Structural)]
pub enum DropOffPickupType {
    Regular,
    NotAvailable,
    PhoneAgency,
    CoordinateWithDriver,
}

impl ProtoEnum for DropOffPickupType {
    open spec fn spec_enum_name() -> &'static str {
        "StopTimeProperties.DropOffPickupType"
    }

    open spec fn spec_from_i32(value: i32) -> Option<Self> {
        if value == 0 {
            Some(DropOffPickupType::Regular)
        } else if value == 1 {
            Some(DropOffPickupType::NotAvailable)
        } else if value == 2 {
            Some(DropOffPickupType::PhoneAgency)
        } else if value == 3 {
            Some(DropOffPickupType::CoordinateWithDriver)
        } else {
            None
        }
    }

    open spec fn spec_value(self) -> i32 {
        match self {
            DropOffPickupType::Regular => 0,
            DropOffPickupType::NotAvailable => 1,
            DropOffPickupType::PhoneAgency => 2,
            DropOffPickupType::CoordinateWithDriver => 3,
        }
    }

    fn enum_name() -> (r: &'static str) {
        "StopTimeProperties.DropOffPickupType"
    }

    fn from_i32(value: i32) -> (r: Option<Self>) {
        match value {
            0 => Some(DropOffPickupType::Regular),
            1 => Some(DropOffPickupType::NotAvailable),
            2 => Some(DropOffPickupType::PhoneAgency),
            3 => Some(DropOffPickupType::CoordinateWithDriver),
            _ => None,
        }
    }

    proof fn law_round_trip(e: Self) {
    }

    proof fn law_value_of_variant(v: i32) {
    }
}

impl DropOffPickupType {
    /// The number the specification gives this value.
    pub fn as_i32(self) -> (r: i32)
        ensures
            r == self.spec_value(),
    {
        match self {
            DropOffPickupType::Regular => 0,
            DropOffPickupType::NotAvailable => 1,
            DropOffPickupType::PhoneAgency => 2,
            DropOffPickupType::CoordinateWithDriver => 3,
        }
    }

    /// The name the specification gives this value.
    pub fn proto_name(self) -> (r: &'static str)
        ensures
            r == spec_drop_off_pickup_type_name(self),
    {
        match self {
            DropOffPickupType::Regular => "Regular",
            DropOffPickupType::NotAvailable => "None",
            DropOffPickupType::PhoneAgency => "PhoneAgency",
            DropOffPickupType::CoordinateWithDriver => "CoordinateWithDriver",
        }
    }
}

/// The name of each `DropOffPickupType` value.
pub open spec fn spec_drop_off_pickup_type_name(e: DropOffPickupType) -> &'static str {
    match e {
        DropOffPickupType::Regular => "Regular",
        DropOffPickupType::NotAvailable => "None",
        DropOffPickupType::PhoneAgency => "PhoneAgency",
        DropOffPickupType::CoordinateWithDriver => "CoordinateWithDriver",
    }
}

/// `VehiclePosition.current_status`; the default is `InTransitTo`.
#[derive(Debug, Clone, Copy, PartialEq, Eq, Hash, Structural)]
pub enum VehicleStopStatus {
    IncomingAt,
    StoppedAt,
    InTransitTo,
}

impl ProtoEnum for VehicleStopStatus {
    open spec fn spec_enum_name() -> &'static str {
        "VehiclePosition.VehicleStopStatus"
    }

    open spec fn spec_from_i32(value: i32) -> Option<Self> {
        if value == 0 {
            Some(VehicleStopStatus::IncomingAt)
        } else if value == 1 {
            Some(VehicleStopStatus::StoppedAt)
        } else if value == 2 {
            Some(VehicleStopStatus::InTransitTo)
        } else {
            None
        }
    }

    open spec fn spec_value(self) -> i32 {
        match self {
            VehicleStopStatus::IncomingAt => 0,
            VehicleStopStatus::StoppedAt => 1,
            VehicleStopStatus::InTransitTo => 2,
        }
    }

    fn enum_name() -> (r: &'static str) {
        "VehiclePosition.VehicleStopStatus"
    }

    fn from_i32(value: i32) -> (r: Option<Self>) {
        match value {
            0 => Some(VehicleStopStatus::IncomingAt),
            1 => Some(VehicleStopStatus::StoppedAt),
            2 => Some(VehicleStopStatus::InTransitTo),
            _ => None,
        }
    }

    proof fn law_round_trip(e: Self) {
    }

    proof fn law_value_of_variant(v: i32) {
    }
}

impl VehicleStopStatus {
    /// The number the specification gives this value.
    pub fn as_i32(self) -> (r: i32)
        ensures
            r == self.spec_value(),
    {
        match self {
            VehicleStopStatus::IncomingAt => 0,
            VehicleStopStatus::StoppedAt => 1,
            VehicleStopStatus::InTransitTo => 2,
        }
    }

    /// The name the specification gives this value.
    pub fn proto_name(self) -> (r: &'static str)
        ensures
            r == spec_vehicle_stop_status_name(self),
    {
        match self {
            VehicleStopStatus::IncomingAt => "IncomingAt",
            VehicleStopStatus::StoppedAt => "StoppedAt",
            VehicleStopStatus::InTransitTo => "InTransitTo",
        }
    }
}

/// The name of each `VehicleStopStatus` value.
pub open spec fn spec_vehicle_stop_status_name(e: VehicleStopStatus) -> &'static str {
    match e {
        VehicleStopStatus::IncomingAt => "IncomingAt",
        VehicleStopStatus::StoppedAt => "StoppedAt",
        VehicleStopStatus::InTransitTo => "InTransitTo",
    }
}

/// `VehiclePosition.congestion_level`.
#[derive(Debug, Clone, Copy, PartialEq, Eq, Hash, Structural)]
pub enum CongestionLevel {
    UnknownCongestionLevel,
    RunningSmoothly,
    StopAndGo,
    Congestion,
    SevereCongestion,
}

impl ProtoEnum for CongestionLevel {
    open spec fn spec_enum_name() -> &'static str {
        "VehiclePosition.CongestionLevel"
    }

    open spec fn spec_from_i32(value: i32) -> Option<Self> {
        if value == 0 {
            Some(CongestionLevel::UnknownCongestionLevel)
        } else if value == 1 {
            Some(CongestionLevel::RunningSmoothly)
        } else if value == 2 {
            Some(CongestionLevel::StopAndGo)
        } else if value == 3 {
            Some(CongestionLevel::Congestion)
        } else if value == 4 {
            Some(CongestionLevel::SevereCongestion)
        } else {
            None
        }
    }

    open spec fn spec_value(self) -> i32 {
        match self {
            CongestionLevel::UnknownCongestionLevel => 0,
            CongestionLevel::RunningSmoothly => 1,
            CongestionLevel::StopAndGo => 2,
            CongestionLevel::Congestion => 3,
            CongestionLevel::SevereCongestion => 4,
        }
    }

    fn enum_name() -> (r: &'static str) {
        "VehiclePosition.CongestionLevel"
    }

    fn from_i32(value: i32) -> (r: Option<Self>) {
        match value {
            0 => Some(CongestionLevel::UnknownCongestionLevel),
            1 => Some(CongestionLevel::RunningSmoothly),
            2 => Some(CongestionLevel::StopAndGo),
            3 => Some(CongestionLevel::Congestion),
            4 => Some(CongestionLevel::SevereCongestion),
            _ => None,
        }
    }

    proof fn law_round_trip(e: Self) {
    }

    proof fn law_value_of_variant(v: i32) {
    }
}

impl CongestionLevel {
    /// The number the specification gives this value.
    pub fn as_i32(self) -> (r: i32)
        ensures
            r == self.spec_value(),
    {
        match self {
            CongestionLevel::UnknownCongestionLevel => 0,
            CongestionLevel::RunningSmoothly => 1,
            CongestionLevel::StopAndGo => 2,
            CongestionLevel::Congestion => 3,
            CongestionLevel::SevereCongestion => 4,
        }
    }

    /// The name the specification gives this value.
    pub fn proto_name(self) -> (r: &'static str)
        ensures
            r == spec_congestion_level_name(self),
    {
        match self {
            CongestionLevel::UnknownCongestionLevel => "UnknownCongestionLevel",
            CongestionLevel::RunningSmoothly => "RunningSmoothly",
            CongestionLevel::StopAndGo => "StopAndGo",
            CongestionLevel::Congestion => "Congestion",
            CongestionLevel::SevereCongestion => "SevereCongestion",
        }
    }
}

/// The name of each `CongestionLevel` value.
pub open spec fn spec_congestion_level_name(e: CongestionLevel) -> &'static str {
    match e {
        CongestionLevel::UnknownCongestionLevel => "UnknownCongestionLevel",
        CongestionLevel::RunningSmoothly => "RunningSmoothly",
        CongestionLevel::StopAndGo => "StopAndGo",
        CongestionLevel::Congestion => "Congestion",
        CongestionLevel::SevereCongestion => "SevereCongestion",
    }
}

/// `VehiclePosition.occupancy_status` and `CarriageDetails.occupancy_status`.
#[derive(Debug, Clone, Copy, PartialEq, Eq, Hash, Structural)]
pub enum OccupancyStatus {
    Empty,
    ManySeatsAvailable,
    FewSeatsAvailable,
    StandingRoomOnly,
    CrushedStandingRoomOnly,
    Full,
    NotAcceptingPassengers,
    NoDataAvailable,
    NotBoardable,
}

impl ProtoEnum for OccupancyStatus {
    open spec fn spec_enum_name() -> &'static str {
        "VehiclePosition.OccupancyStatus"
    }

    open spec fn spec_from_i32(value: i32) -> Option<Self> {
        if value == 0 {
            Some(OccupancyStatus::Empty)
        } else if value == 1 {
            Some(OccupancyStatus::ManySeatsAvailable)
        } else if value == 2 {
            Some(OccupancyStatus::FewSeatsAvailable)
        } else if value == 3 {
            Some(OccupancyStatus::StandingRoomOnly)
        } else if value == 4 {
            Some(OccupancyStatus::CrushedStandingRoomOnly)
        } else if value == 5 {
            Some(OccupancyStatus::Full)
        } else if value == 6 {
            Some(OccupancyStatus::NotAcceptingPassengers)
        } else if value == 7 {
            Some(OccupancyStatus::NoDataAvailable)
        } else if value == 8 {
            Some(OccupancyStatus::NotBoardable)
        } else {
            None
        }
    }

    open spec fn spec_value(self) -> i32 {
        match self {
            OccupancyStatus::Empty => 0,
            OccupancyStatus::ManySeatsAvailable => 1,
            OccupancyStatus::FewSeatsAvailable => 2,
            OccupancyStatus::StandingRoomOnly => 3,
            OccupancyStatus::CrushedStandingRoomOnly => 4,
            OccupancyStatus::Full => 5,
            OccupancyStatus::NotAcceptingPassengers => 6,
            OccupancyStatus::NoDataAvailable => 7,
            OccupancyStatus::NotBoardable => 8,
        }
    }

    fn enum_name() -> (r: &'static str) {
        "VehiclePosition.OccupancyStatus"
    }

    fn from_i32(value: i32) -> (r: Option<Self>) {
        match value {
            0 => Some(OccupancyStatus::Empty),
            1 => Some(OccupancyStatus::ManySeatsAvailable),
            2 => Some(OccupancyStatus::FewSeatsAvailable),
            3 => Some(OccupancyStatus::StandingRoomOnly),
            4 => Some(OccupancyStatus::CrushedStandingRoomOnly),
            5 => Some(OccupancyStatus::Full),
            6 => Some(OccupancyStatus::NotAcceptingPassengers),
            7 => Some(OccupancyStatus::NoDataAvailable),
            8 => Some(OccupancyStatus::NotBoardable),
            _ => None,
        }
    }

    proof fn law_round_trip(e: Self) {
    }

    proof fn law_value_of_variant(v: i32) {
    }
}

impl OccupancyStatus {
    /// The number the specification gives this value.
    pub fn as_i32(self) -> (r: i32)
        ensures
            r == self.spec_value(),
    {
        match self {
            OccupancyStatus::Empty => 0,
            OccupancyStatus::ManySeatsAvailable => 1,
            OccupancyStatus::FewSeatsAvailable => 2,
            OccupancyStatus::StandingRoomOnly => 3,
            OccupancyStatus::CrushedStandingRoomOnly => 4,
            OccupancyStatus::Full => 5,
            OccupancyStatus::NotAcceptingPassengers => 6,
            OccupancyStatus::NoDataAvailable => 7,
            OccupancyStatus::NotBoardable => 8,
        }
    }

    /// The name the specification gives this value.
    pub fn proto_name(self) -> (r: &'static str)
        ensures
            r == spec_occupancy_status_name(self),
    {
        match self {
            OccupancyStatus::Empty => "Empty",
            OccupancyStatus::ManySeatsAvailable => "ManySeatsAvailable",
            OccupancyStatus::FewSeatsAvailable => "FewSeatsAvailable",
            OccupancyStatus::StandingRoomOnly => "StandingRoomOnly",
            OccupancyStatus::CrushedStandingRoomOnly => "CrushedStandingRoomOnly",
            OccupancyStatus::Full => "Full",
            OccupancyStatus::NotAcceptingPassengers => "NotAcceptingPassengers",
            OccupancyStatus::NoDataAvailable => "NoDataAvailable",
            OccupancyStatus::NotBoardable => "NotBoardable",
        }
    }
}

/// The name of each `OccupancyStatus` value.
pub open spec fn spec_occupancy_status_name(e: OccupancyStatus) -> &'static str {
    match e {
        OccupancyStatus::Empty => "Empty",
        OccupancyStatus::ManySeatsAvailable => "ManySeatsAvailable",
        OccupancyStatus::FewSeatsAvailable => "FewSeatsAvailable",
        OccupancyStatus::StandingRoomOnly => "StandingRoomOnly",
        OccupancyStatus::CrushedStandingRoomOnly => "CrushedStandingRoomOnly",
        OccupancyStatus::Full => "Full",
        OccupancyStatus::NotAcceptingPassengers => "NotAcceptingPassengers",
        OccupancyStatus::NoDataAvailable => "NoDataAvailable",
        OccupancyStatus::NotBoardable => "NotBoardable",
    }
}

/// `Alert.cause`; the default is `UnknownCause`. 0 is undefined: the numbering starts at 1.
#[derive(Debug, Clone, Copy, PartialEq, Eq, Hash, Structural)]
pub enum AlertCause {
    UnknownCause,
    OtherCause,
    TechnicalProblem,
    Strike,
    Demonstration,
    Accident,
    Holiday,
    Weather,
    Maintenance,
    Construction,
    PoliceActivity,
    MedicalEmergency,
    SpecialEvent,
}

impl ProtoEnum for AlertCause {
    open spec fn spec_enum_name() -> &'static str {
        "Alert.Cause"
    }

    open spec fn spec_from_i32(value: i32) -> Option<Self> {
        if value == 1 {
            Some(AlertCause::UnknownCause)
        } else if value == 2 {
            Some(AlertCause::OtherCause)
        } else if value == 3 {
            Some(AlertCause::TechnicalProblem)
        } else if value == 4 {
            Some(AlertCause::Strike)
        } else if value == 5 {
            Some(AlertCause::Demonstration)
        } else if value == 6 {
            Some(AlertCause::Accident)
        } else if value == 7 {
            Some(AlertCause::Holiday)
        } else if value == 8 {
            Some(AlertCause::Weather)
        } else if value == 9 {
            Some(AlertCause::Maintenance)
        } else if value == 10 {
            Some(AlertCause::Construction)
        } else if value == 11 {
            Some(AlertCause::PoliceActivity)
        } else if value == 12 {
            Some(AlertCause::MedicalEmergency)
        } else if value == 13 {
            Some(AlertCause::SpecialEvent)
        } else {
            None
        }
    }

    open spec fn spec_value(self) -> i32 {
        match self {
            AlertCause::UnknownCause => 1,
            AlertCause::OtherCause => 2,
            AlertCause::TechnicalProblem => 3,
            AlertCause::Strike => 4,
            AlertCause::Demonstration => 5,
            AlertCause::Accident => 6,
            AlertCause::Holiday => 7,
            AlertCause::Weather => 8,
            AlertCause::Maintenance => 9,
            AlertCause::Construction => 10,
            AlertCause::PoliceActivity => 11,
            AlertCause::MedicalEmergency => 12,
            AlertCause::SpecialEvent => 13,
        }
    }

    fn enum_name() -> (r: &'static str) {
        "Alert.Cause"
    }

    fn from_i32(value: i32) -> (r: Option<Self>) {
        match value {
            1 => Some(AlertCause::UnknownCause),
            2 => Some(AlertCause::OtherCause),
            3 => Some(AlertCause::TechnicalProblem),
            4 => Some(AlertCause::Strike),
            5 => Some(AlertCause::Demonstration),
            6 => Some(AlertCause::Accident),
            7 => Some(AlertCause::Holiday),
            8 => Some(AlertCause::Weather),
            9 => Some(AlertCause::Maintenance),
            10 => Some(AlertCause::Construction),
            11 => Some(AlertCause::PoliceActivity),
            12 => Some(AlertCause::MedicalEmergency),
            13 => Some(AlertCause::SpecialEvent),
            _ => None,
        }
    }

    proof fn law_round_trip(e: Self) {
    }

    proof fn law_value_of_variant(v: i32) {
    }
}

impl AlertCause {
    /// The number the specification gives this value.
    pub fn as_i32(self) -> (r: i32)
        ensures
            r == self.spec_value(),
    {
        match self {
            AlertCause::UnknownCause => 1,
            AlertCause::OtherCause => 2,
            AlertCause::TechnicalProblem => 3,
            AlertCause::Strike => 4,
            AlertCause::Demonstration => 5,
            AlertCause::Accident => 6,
            AlertCause::Holiday => 7,
            AlertCause::Weather => 8,
            AlertCause::Maintenance => 9,
            AlertCause::Construction => 10,
            AlertCause::PoliceActivity => 11,
            AlertCause::MedicalEmergency => 12,
            AlertCause::SpecialEvent => 13,
        }
    }

    /// The name the specification gives this value.
    pub fn proto_name(self) -> (r: &'static str)
        ensures
            r == spec_alert_cause_name(self),
    {
        match self {
            AlertCause::UnknownCause => "UnknownCause",
            AlertCause::OtherCause => "OtherCause",
            AlertCause::TechnicalProblem => "TechnicalProblem",
            AlertCause::Strike => "Strike",
            AlertCause::Demonstration => "Demonstration",
            AlertCause::Accident => "Accident",
            AlertCause::Holiday => "Holiday",
            AlertCause::Weather => "Weather",
            AlertCause::Maintenance => "Maintenance",
            AlertCause::Construction => "Construction",
            AlertCause::PoliceActivity => "PoliceActivity",
            AlertCause::MedicalEmergency => "MedicalEmergency",
            AlertCause::SpecialEvent => "SpecialEvent",
        }
    }
}

/// The name of each `AlertCause` value.
pub open spec fn spec_alert_cause_name(e: AlertCause) -> &'static str {
    match e {
        AlertCause::UnknownCause => "UnknownCause",
        AlertCause::OtherCause => "OtherCause",
        AlertCause::TechnicalProblem => "TechnicalProblem",
        AlertCause::Strike => "Strike",
        AlertCause::Demonstration => "Demonstration",
        AlertCause::Accident => "Accident",
        AlertCause::Holiday => "Holiday",
        AlertCause::Weather => "Weather",
        AlertCause::Maintenance => "Maintenance",
        AlertCause::Construction => "Construction",
        AlertCause::PoliceActivity => "PoliceActivity",
        AlertCause::MedicalEmergency => "MedicalEmergency",
        AlertCause::SpecialEvent => "SpecialEvent",
    }
}

/// `Alert.effect`; the default is `UnknownEffect`. 0 is undefined.
#[derive(Debug, Clone, Copy, PartialEq, Eq, Hash, Structural)]
pub enum AlertEffect {
    NoService,
    ReducedService,
    SignificantDelays,
    Detour,
    AdditionalService,
    ModifiedService,
    OtherEffect,
    UnknownEffect,
    StopMoved,
    NoEffect,
    AccessibilityIssue,
}

impl ProtoEnum for AlertEffect {
    open spec fn spec_enum_name() -> &'static str {
        "Alert.Effect"
    }

    open spec fn spec_from_i32(value: i32) -> Option<Self> {
        if value == 1 {
            Some(AlertEffect::NoService)
        } else if value == 2 {
            Some(AlertEffect::ReducedService)
        } else if value == 3 {
            Some(AlertEffect::SignificantDelays)
        } else if value == 4 {
            Some(AlertEffect::Detour)
        } else if value == 5 {
            Some(AlertEffect::AdditionalService)
        } else if value == 6 {
            Some(AlertEffect::ModifiedService)
        } else if value == 7 {
            Some(AlertEffect::OtherEffect)
        } else if value == 8 {
            Some(AlertEffect::UnknownEffect)
        } else if value == 9 {
            Some(AlertEffect::StopMoved)
        } else if value == 10 {
            Some(AlertEffect::NoEffect)
        } else if value == 11 {
            Some(AlertEffect::AccessibilityIssue)
        } else {
            None
        }
    }

    open spec fn spec_value(self) -> i32 {
        match self {
            AlertEffect::NoService => 1,
            AlertEffect::ReducedService => 2,
            AlertEffect::SignificantDelays => 3,
            AlertEffect::Detour => 4,
            AlertEffect::AdditionalService => 5,
            AlertEffect::ModifiedService => 6,
            AlertEffect::OtherEffect => 7,
            AlertEffect::UnknownEffect => 8,
            AlertEffect::StopMoved => 9,
            AlertEffect::NoEffect => 10,
            AlertEffect::AccessibilityIssue => 11,
        }
    }

    fn enum_name() -> (r: &'static str) {
        "Alert.Effect"
    }

    fn from_i32(value: i32) -> (r: Option<Self>) {
        match value {
            1 => Some(AlertEffect::NoService),
            2 => Some(AlertEffect::ReducedService),
            3 => Some(AlertEffect::SignificantDelays),
            4 => Some(AlertEffect::Detour),
            5 => Some(AlertEffect::AdditionalService),
            6 => Some(AlertEffect::ModifiedService),
            7 => Some(AlertEffect::OtherEffect),
            8 => Some(AlertEffect::UnknownEffect),
            9 => Some(AlertEffect::StopMoved),
            10 => Some(AlertEffect::NoEffect),
            11 => Some(AlertEffect::AccessibilityIssue),
            _ => None,
        }
    }

    proof fn law_round_trip(e: Self) {
    }

    proof fn law_value_of_variant(v: i32) {
    }
}

impl AlertEffect {
    /// The number the specification gives this value.
    pub fn as_i32(self) -> (r: i32)
        ensures
            r == self.spec_value(),
    {
        match self {
            AlertEffect::NoService => 1,
            AlertEffect::ReducedService => 2,
            AlertEffect::SignificantDelays => 3,
            AlertEffect::Detour => 4,
            AlertEffect::AdditionalService => 5,
            AlertEffect::ModifiedService => 6,
            AlertEffect::OtherEffect => 7,
            AlertEffect::UnknownEffect => 8,
            AlertEffect::StopMoved => 9,
            AlertEffect::NoEffect => 10,
            AlertEffect::AccessibilityIssue => 11,
        }
    }

    /// The name the specification gives this value.
    pub fn proto_name(self) -> (r: &'static str)
        ensures
            r == spec_alert_effect_name(self),
    {
        match self {
            AlertEffect::NoService => "NoService",
            AlertEffect::ReducedService => "ReducedService",
            AlertEffect::SignificantDelays => "SignificantDelays",
            AlertEffect::Detour => "Detour",
            AlertEffect::AdditionalService => "AdditionalService",
            AlertEffect::ModifiedService => "ModifiedService",
            AlertEffect::OtherEffect => "OtherEffect",
            AlertEffect::UnknownEffect => "UnknownEffect",
            AlertEffect::StopMoved => "StopMoved",
            AlertEffect::NoEffect => "NoEffect",
            AlertEffect::AccessibilityIssue => "AccessibilityIssue",
        }
    }
}

/// The name of each `AlertEffect` value.
pub open spec fn spec_alert_effect_name(e: AlertEffect) -> &'static str {
    match e {
        AlertEffect::NoService => "NoService",
        AlertEffect::ReducedService => "ReducedService",
        AlertEffect::SignificantDelays => "SignificantDelays",
        AlertEffect::Detour => "Detour",
        AlertEffect::AdditionalService => "AdditionalService",
        AlertEffect::ModifiedService => "ModifiedService",
        AlertEffect::OtherEffect => "OtherEffect",
        AlertEffect::UnknownEffect => "UnknownEffect",
        AlertEffect::StopMoved => "StopMoved",
        AlertEffect::NoEffect => "NoEffect",
        AlertEffect::AccessibilityIssue => "AccessibilityIssue",
    }
}

/// `Alert.severity_level`; the default is `UnknownSeverity`. 0 is undefined.
#[derive(Debug, Clone, Copy, PartialEq, Eq, Hash, Structural)]
pub enum AlertSeverityLevel {
    UnknownSeverity,
    Info,
    Warning,
    Severe,
}

impl ProtoEnum for AlertSeverityLevel {
    open spec fn spec_enum_name() -> &'static str {
        "Alert.SeverityLevel"
    }

    open spec fn spec_from_i32(value: i32) -> Option<Self> {
        if value == 1 {
            Some(AlertSeverityLevel::UnknownSeverity)
        } else if value == 2 {
            Some(AlertSeverityLevel::Info)
        } else if value == 3 {
            Some(AlertSeverityLevel::Warning)
        } else if value == 4 {
            Some(AlertSeverityLevel::Severe)
        } else {
            None
        }
    }

    open spec fn spec_value(self) -> i32 {
        match self {
            AlertSeverityLevel::UnknownSeverity => 1,
            AlertSeverityLevel::Info => 2,
            AlertSeverityLevel::Warning => 3,
            AlertSeverityLevel::Severe => 4,
        }
    }

    fn enum_name() -> (r: &'static str) {
        "Alert.SeverityLevel"
    }

    fn from_i32(value: i32) -> (r: Option<Self>) {
        match value {
            1 => Some(AlertSeverityLevel::UnknownSeverity),
            2 => Some(AlertSeverityLevel::Info),
            3 => Some(AlertSeverityLevel::Warning),
            4 => Some(AlertSeverityLevel::Severe),
            _ => None,
        }
    }

    proof fn law_round_trip(e: Self) {
    }

    proof fn law_value_of_variant(v: i32) {
    }
}

impl AlertSeverityLevel {
    /// The number the specification gives this value.
    pub fn as_i32(self) -> (r: i32)
        ensures
            r == self.spec_value(),
    {
        match self {
            AlertSeverityLevel::UnknownSeverity => 1,
            AlertSeverityLevel::Info => 2,
            AlertSeverityLevel::Warning => 3,
            AlertSeverityLevel::Severe => 4,
        }
    }

    /// The name the specification gives this value.
    pub fn proto_name(self) -> (r: &'static str)
        ensures
            r == spec_alert_severity_level_name(self),
    {
        match self {
            AlertSeverityLevel::UnknownSeverity => "UnknownSeverity",
            AlertSeverityLevel::Info => "Info",
            AlertSeverityLevel::Warning => "Warning",
            AlertSeverityLevel::Severe => "Severe",
        }
    }
}

/// The name of each `AlertSeverityLevel` value.
pub open spec fn spec_alert_severity_level_name(e: AlertSeverityLevel) -> &'static str {
    match e {
        AlertSeverityLevel::UnknownSeverity => "UnknownSeverity",
        AlertSeverityLevel::Info => "Info",
        AlertSeverityLevel::Warning => "Warning",
        AlertSeverityLevel::Severe => "Severe",
    }
}

/// `VehicleDescriptor.wheelchair_accessible`; the default is `NoValue`.
#[derive(Debug, Clone, Copy, PartialEq, Eq, Hash, Structural)]
pub enum WheelchairAccessible {
    NoValue,
    Unknown,
    WheelchairAccessible,
    WheelchairInaccessible,
}

impl ProtoEnum for WheelchairAccessible {
    open spec fn spec_enum_name() -> &'static str {
        "VehicleDescriptor.WheelchairAccessible"
    }

    open spec fn spec_from_i32(value: i32) -> Option<Self> {
        if value == 0 {
            Some(WheelchairAccessible::NoValue)
        } else if value == 1 {
            Some(WheelchairAccessible::Unknown)
        } else if value == 2 {
            Some(WheelchairAccessible::WheelchairAccessible)
        } else if value == 3 {
            Some(WheelchairAccessible::WheelchairInaccessible)
        } else {
            None
        }
    }

    open spec fn spec_value(self) -> i32 {
        match self {
            WheelchairAccessible::NoValue => 0,
            WheelchairAccessible::Unknown => 1,
            WheelchairAccessible::WheelchairAccessible => 2,
            WheelchairAccessible::WheelchairInaccessible => 3,
        }
    }

    fn enum_name() -> (r: &'static str) {
        "VehicleDescriptor.WheelchairAccessible"
    }

    fn from_i32(value: i32) -> (r: Option<Self>) {
        match value {
            0 => Some(WheelchairAccessible::NoValue),
            1 => Some(WheelchairAccessible::Unknown),
            2 => Some(WheelchairAccessible::WheelchairAccessible),
            3 => Some(WheelchairAccessible::WheelchairInaccessible),
            _ => None,
        }
    }

    proof fn law_round_trip(e: Self) {
    }

    proof fn law_value_of_variant(v: i32) {
    }
}

impl WheelchairAccessible {
    /// The number the specification gives this value.
    pub fn as_i32(self) -> (r: i32)
        ensures
            r == self.spec_value(),
    {
        match self {
            WheelchairAccessible::NoValue => 0,
            WheelchairAccessible::Unknown => 1,
            WheelchairAccessible::WheelchairAccessible => 2,
            WheelchairAccessible::WheelchairInaccessible => 3,
        }
    }

    /// The name the specification gives this value.
    pub fn proto_name(self) -> (r: &'static str)
        ensures
            r == spec_wheelchair_accessible_name(self),
    {
        match self {
            WheelchairAccessible::NoValue => "NoValue",
            WheelchairAccessible::Unknown => "Unknown",
            WheelchairAccessible::WheelchairAccessible => "WheelchairAccessible",
            WheelchairAccessible::WheelchairInaccessible => "WheelchairInaccessible",
        }
    }
}

/// The name of each `WheelchairAccessible` value.
pub open spec fn spec_wheelchair_accessible_name(e: WheelchairAccessible) -> &'static str {
    match e {
        WheelchairAccessible::NoValue => "NoValue",
        WheelchairAccessible::Unknown => "Unknown",
        WheelchairAccessible::WheelchairAccessible => "WheelchairAccessible",
        WheelchairAccessible::WheelchairInaccessible => "WheelchairInaccessible",
    }
}

/// `Stop.wheelchair_boarding`; the default is `Unknown`.
#[derive(Debug, Clone, Copy, PartialEq, Eq, Hash, Structural)]
pub enum WheelchairBoarding {
    Unknown,
    Available,
    NotAvailable,
}

impl ProtoEnum for WheelchairBoarding {
    open spec fn spec_enum_name() -> &'static str {
        "Stop.WheelchairBoarding"
    }

    open spec fn spec_from_i32(value: i32) -> Option<Self> {
        if value == 0 {
            Some(WheelchairBoarding::Unknown)
        } else if value == 1 {
            Some(WheelchairBoarding::Available)
        } else if value == 2 {
            Some(WheelchairBoarding::NotAvailable)
        } else {
            None
        }
    }

    open spec fn spec_value(self) -> i32 {
        match self {
            WheelchairBoarding::Unknown => 0,
            WheelchairBoarding::Available => 1,
            WheelchairBoarding::NotAvailable => 2,
        }
    }

    fn enum_name() -> (r: &'static str) {
        "Stop.WheelchairBoarding"
    }

    fn from_i32(value: i32) -> (r: Option<Self>) {
        match value {
            0 => Some(WheelchairBoarding::Unknown),
            1 => Some(WheelchairBoarding::Available),
            2 => Some(WheelchairBoarding::NotAvailable),
            _ => None,
        }
    }

    proof fn law_round_trip(e: Self) {
    }

    proof fn law_value_of_variant(v: i32) {
    }
}

impl WheelchairBoarding {
    /// The number the specification gives this value.
    pub fn as_i32(self) -> (r: i32)
        ensures
            r == self.spec_value(),
    {
        match self {
            WheelchairBoarding::Unknown => 0,
            WheelchairBoarding::Available => 1,
            WheelchairBoarding::NotAvailable => 2,
        }
    }

    /// The name the specification gives this value.
    pub fn proto_name(self) -> (r: &'static str)
        ensures
            r == spec_wheelchair_boarding_name(self),
    {
        match self {
            WheelchairBoarding::Unknown => "Unknown",
            WheelchairBoarding::Available => "Available",
            WheelchairBoarding::NotAvailable => "NotAvailable",
        }
    }
}

/// The name of each `WheelchairBoarding` value.
pub open spec fn spec_wheelchair_boarding_name(e: WheelchairBoarding) -> &'static str {
    match e {
        WheelchairBoarding::Unknown => "Unknown",
        WheelchairBoarding::Available => "Available",
        WheelchairBoarding::NotAvailable => "NotAvailable",
    }
}

} // verus!
