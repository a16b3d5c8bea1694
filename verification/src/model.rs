//! The records that travel between the service and its store, and the
//! mathematical view of each.

use vstd::prelude::*;

verus! {

/// The key of a row that a statement produced or removed.
#[derive(Debug, Clone, Copy, PartialEq, Eq)]
pub struct Record {
    pub id: i32,
}

/// A registered vehicle.
#[derive(Debug, Clone, PartialEq, Eq)]
pub struct VehicleModel {
    pub id: i32,
    pub name: String,
    pub description: String,
}

/// The body of a request that registers a vehicle.
#[derive(Debug, Clone, PartialEq, Eq)]
pub struct PostVehicle {
    pub name: String,
    pub description: String,
}

/// The most recent odometer reading of a vehicle, joined with the vehicle's
/// name. `timestamp` counts microseconds since 1970-01-01T00:00:00 UTC.
#[derive(Debug, Clone, PartialEq, Eq)]
pub struct OdometerLatestModel {
    pub vehicle_id: i32,
    pub vehicle_name: String,
    pub odometer: i32,
    pub timestamp: i64,
}

/// The body of a request that appends an odometer reading. It carries no
/// timestamp: the store assigns one when it writes the row.
#[derive(Debug, Clone, Copy, PartialEq, Eq)]
pub struct PostOdometer {
    pub odometer: i32,
}

/// What a [`Record`] stands for.
pub struct RecordView {
    pub id: int,
}

/// What a [`VehicleModel`] stands for.
pub struct VehicleView {
    pub id: int,
    pub name: Seq<char>,
    pub description: Seq<char>,
}

/// What a [`PostVehicle`] stands for.
pub struct PostVehicleView {
    pub name: Seq<char>,
    pub description: Seq<char>,
}

/// What an [`OdometerLatestModel`] stands for.
pub struct OdometerLatestView {
    pub vehicle_id: int,
    pub vehicle_name: Seq<char>,
    pub odometer: int,
    pub timestamp: int,
}

impl View for Record {
    type V = RecordView;

    open spec fn view(&self) -> RecordView {
        RecordView { id: self.id as int }
    }
}

impl DeepView for Record {
    type V = RecordView;

    open spec fn deep_view(&self) -> RecordView {
        self@
    }
}

impl View for VehicleModel {
    type V = VehicleView;

    open spec fn view(&self) -> VehicleView {
        VehicleView { id: self.id as int, name: self.name@, description: self.description@ }
    }
}

impl DeepView for VehicleModel {
    type V = VehicleView;

    open spec fn deep_view(&self) -> VehicleView {
        self@
    }
}

impl View for PostVehicle {
    type V = PostVehicleView;

    open spec fn view(&self) -> PostVehicleView {
        PostVehicleView { name: self.name@, description: self.description@ }
    }
}

impl View for OdometerLatestModel {
    type V = OdometerLatestView;

    open spec fn view(&self) -> OdometerLatestView {
        OdometerLatestView {
            vehicle_id: self.vehicle_id as int,
            vehicle_name: self.vehicle_name@,
            odometer: self.odometer as int,
            timestamp: self.timestamp as int,
        }
    }
}

impl DeepView for OdometerLatestModel {
    type V = OdometerLatestView;

    open spec fn deep_view(&self) -> OdometerLatestView {
        self@
    }
}

} // verus!
