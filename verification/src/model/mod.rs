//! The GTFS-Realtime message model.
//!
//! `gtfs-realtime.proto` (proto2) mirrored one to one: 26 messages, 12 enums.
//! Every field is `Option<T>` or `Vec<T>`, proto2 `required` ones included.
//! Requiredness is checked in `check_required`, not in the type, so a missing
//! `required` field yields an anomaly instead of discarding the decode.

pub mod alert;
pub mod descriptor;
pub mod enums;
pub mod feed;
pub mod laws;
pub mod modifications;
pub mod shape_stop;
pub mod trip_update;
pub mod vehicle;

pub use alert::Alert;
pub use descriptor::{
    EntitySelector, LocalizedImage, ModifiedTripSelector, Position, TimeRange, TranslatedImage,
    TranslatedString, Translation, TripDescriptor, VehicleDescriptor,
};
pub use feed::{FeedEntity, FeedHeader, FeedMessage};
pub use modifications::{Modification, ReplacementStop, SelectedTrips, StopSelector, TripModifications};
pub use shape_stop::{Shape, Stop};
pub use trip_update::{StopTimeEvent, StopTimeProperties, StopTimeUpdate, TripProperties, TripUpdate};
pub use vehicle::{CarriageDetails, VehiclePosition};
