//! A model of the store: the rows of its two tables, the constraints that the
//! store keeps on them, and what it answers to each statement. The service
//! never holds such a value; the model says what the service expects of the
//! store, so that whole exchanges can be reasoned about.

use crate::handlers::mentions_foreign_key;
use crate::model::{OdometerLatestView, PostVehicleView, RecordView, VehicleView};
use crate::statement::StatementView;
use vstd::prelude::*;

verus! {

/// One row of the table of odometer readings.
pub struct Reading {
    pub vehicle_id: int,
    pub odometer: int,
    pub timestamp: int,
}

/// A state of the store.
pub struct Tables {
    /// The rows of the table of vehicles, by id.
    pub vehicles: Map<int, VehicleView>,
    /// The rows of the table of odometer readings, in the order of their
    /// insertion.
    pub readings: Seq<Reading>,
    /// Every id that the store has ever assigned to a vehicle.
    pub issued: Set<int>,
    /// The store's clock at its last write of a reading.
    pub clock: int,
}

/// The ids that the store assigns: positive, and within the column's type.
pub open spec fn valid_id(id: int) -> bool {
    0 < id <= i32::MAX
}

impl Tables {
    /// The vehicle `id` has a row.
    pub open spec fn has_vehicle(self, id: int) -> bool {
        self.vehicles.dom().contains(id)
    }

    /// Some reading refers to the vehicle `id`.
    pub open spec fn has_reading(self, id: int) -> bool {
        exists|i: int| 0 <= i < self.readings.len() && (#[trigger] self.readings[i]).vehicle_id == id
    }

    /// The constraints that the store keeps: each vehicle is filed under its
    /// own id, which the store assigned; each reading refers to a vehicle
    /// that has a row; and readings were stamped by a clock that never ran
    /// backwards.
    pub open spec fn wf(self) -> bool {
        &&& self.vehicles.dom().finite()
        &&& forall|id: int| #[trigger]
            self.has_vehicle(id) ==> valid_id(id) && self.issued.contains(id)
                && self.vehicles[id].id == id
        &&& forall|i: int|
            0 <= i < self.readings.len() ==> self.has_vehicle(
                (#[trigger] self.readings[i]).vehicle_id,
            ) && self.readings[i].timestamp <= self.clock
        &&& forall|i: int, j: int|
            0 <= i <= j < self.readings.len() ==> (#[trigger] self.readings[i]).timestamp <= (
            #[trigger] self.readings[j]).timestamp
    }

    /// The store may assign `id` to a new vehicle: it never assigns an id
    /// twice.
    pub open spec fn can_issue(self, id: int) -> bool {
        valid_id(id) && !self.issued.contains(id)
    }

    /// The state after the store has registered a vehicle under `id`.
    pub open spec fn insert_vehicle(self, request: PostVehicleView, id: int) -> Tables {
        Tables {
            vehicles: self.vehicles.insert(
                id,
                VehicleView { id, name: request.name, description: request.description },
            ),
            issued: self.issued.insert(id),
            ..self
        }
    }

    /// The state after the store has registered, one after the other, the
    /// vehicles `requests` under the ids `ids`.
    pub open spec fn insert_vehicles(self, requests: Seq<PostVehicleView>, ids: Seq<int>) -> Tables
        decreases requests.len(),
    {
        if requests.len() == 0 || ids.len() != requests.len() {
            self
        } else {
            self.insert_vehicles(requests.drop_last(), ids.drop_last()).insert_vehicle(
                requests.last(),
                ids.last(),
            )
        }
    }

    /// The store's answer to a lookup of the vehicle `id`.
    pub open spec fn select_vehicle(self, id: int) -> Option<VehicleView> {
        if self.has_vehicle(id) {
            Some(self.vehicles[id])
        } else {
            None
        }
    }

    /// `rows` is an answer of the store to a listing of all vehicles: each
    /// vehicle once, in an order of the store's choosing.
    pub open spec fn lists(self, rows: Seq<VehicleView>) -> bool {
        &&& forall|i: int|
            0 <= i < rows.len() ==> self.has_vehicle((#[trigger] rows[i]).id)
                && self.vehicles[rows[i].id] == rows[i]
        &&& forall|id: int| #[trigger] self.has_vehicle(id) ==> rows.contains(self.vehicles[id])
        &&& forall|i: int, j: int|
            0 <= i < j < rows.len() ==> (#[trigger] rows[i]).id != (#[trigger] rows[j]).id
    }

    /// The store lets the vehicle `id` go: it has a row, and no reading
    /// refers to it.
    pub open spec fn can_delete(self, id: int) -> bool {
        self.has_vehicle(id) && !self.has_reading(id)
    }

    /// The state after a removal of the vehicle `id` was asked for.
    pub open spec fn delete_vehicle(self, id: int) -> Tables {
        if self.can_delete(id) {
            Tables { vehicles: self.vehicles.remove(id), ..self }
        } else {
            self
        }
    }

    /// `reply` is an answer of the store to a removal of the vehicle `id`:
    /// the id of the removed row, no row where none has that id, and a
    /// failure where a reading still refers to the vehicle.
    pub open spec fn answers_delete(self, id: int, reply: Result<Option<RecordView>, Seq<char>>) -> bool {
        if !self.has_vehicle(id) {
            reply == Ok::<Option<RecordView>, Seq<char>>(None)
        } else if self.has_reading(id) {
            reply is Err
        } else {
            reply == Ok::<Option<RecordView>, Seq<char>>(Some(RecordView { id }))
        }
    }

    /// The state after the store was asked, at the time `now` of its clock,
    /// to append a reading of `odometer` for the vehicle `vehicle_id`.
    pub open spec fn insert_reading(self, vehicle_id: int, odometer: int, now: int) -> Tables {
        if self.has_vehicle(vehicle_id) {
            Tables {
                readings: self.readings.push(Reading { vehicle_id, odometer, timestamp: now }),
                clock: now,
                ..self
            }
        } else {
            self
        }
    }

    /// `reply` is an answer of the store to the appending of a reading for
    /// the vehicle `vehicle_id`: done where the vehicle has a row, and
    /// otherwise a failure whose text reports the broken reference.
    pub open spec fn answers_insert_reading(self, vehicle_id: int, reply: Result<(), Seq<char>>) -> bool {
        if self.has_vehicle(vehicle_id) {
            reply == Ok::<(), Seq<char>>(())
        } else {
            reply matches Err(message) && mentions_foreign_key(message)
        }
    }

    /// The state after the store has carried out `statement`, where `id` is
    /// the id that it assigns if the statement registers a vehicle, and `now`
    /// the time of its clock if the statement appends a reading. Lookups and
    /// listings change nothing.
    pub open spec fn execute(self, statement: StatementView, id: int, now: int) -> Tables {
        match statement {
            StatementView::InsertVehicle { name, description } => self.insert_vehicle(
                PostVehicleView { name, description },
                id,
            ),
            StatementView::DeleteVehicle { id: removed } => self.delete_vehicle(removed),
            StatementView::InsertOdometer { vehicle_id, odometer } => self.insert_reading(
                vehicle_id,
                odometer,
                now,
            ),
            _ => self,
        }
    }

    /// The reading at index `at` is one of the vehicle `vehicle_id`, and none
    /// of that vehicle's readings has a greater timestamp.
    pub open spec fn latest_at(self, vehicle_id: int, at: int) -> bool {
        &&& 0 <= at < self.readings.len()
        &&& self.readings[at].vehicle_id == vehicle_id
        &&& forall|i: int|
            0 <= i < self.readings.len() && (#[trigger] self.readings[i]).vehicle_id == vehicle_id
                ==> self.readings[i].timestamp <= self.readings[at].timestamp
    }

    /// `reply` is an answer of the store to a lookup of the latest reading of
    /// the vehicle `vehicle_id`: no row where the vehicle has no reading, and
    /// otherwise one of its readings with the greatest timestamp, joined with
    /// the vehicle's name.
    pub open spec fn answers_latest(self, vehicle_id: int, reply: Option<OdometerLatestView>) -> bool {
        match reply {
            None => !self.has_reading(vehicle_id),
            Some(latest) => exists|at: int| #[trigger]
                self.latest_at(vehicle_id, at) && latest == (OdometerLatestView {
                    vehicle_id,
                    vehicle_name: self.vehicles[vehicle_id].name,
                    odometer: self.readings[at].odometer,
                    timestamp: self.readings[at].timestamp,
                }),
        }
    }
}

} // verus!
