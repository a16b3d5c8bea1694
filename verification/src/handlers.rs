//! One pair of functions for each resource operation: the statement that the
//! request puts to the store, and the response that the store's answer earns.
//! The root operation puts nothing to the store.

use crate::model::{
    OdometerLatestModel, OdometerLatestView, PostOdometer, PostVehicle, Record, RecordView,
    VehicleModel, VehicleView,
};
use crate::response::{success_response, text_response, Body, BodyView, Response, ResponseView, Status};
use crate::statement::{Statement, StatementView};
use crate::store::{outcome_view, StoreError};
use crate::text::{contains, occurs_in};
use vstd::prelude::*;

verus! {

/// The greeting of the root operation.
pub open spec fn index_response() -> ResponseView {
    text_response(Status::Success, "Hello, World!"@)
}

/// The response to a listing of all vehicles.
pub open spec fn get_vehicles_response(reply: Result<Seq<VehicleView>, Seq<char>>) -> ResponseView {
    match reply {
        Ok(vehicles) => success_response(
            BodyView::Vehicles { rows: vehicles.len() as int, vehicles },
        ),
        Err(_) => text_response(Status::StoreFault, "Failed to query vehicles"@),
    }
}

/// The response to a lookup of one vehicle.
pub open spec fn get_vehicle_by_id_response(
    reply: Result<Option<VehicleView>, Seq<char>>,
) -> ResponseView {
    match reply {
        Ok(Some(vehicle)) => success_response(BodyView::Vehicle(vehicle)),
        Ok(None) => text_response(Status::NotFound, "Vehicle not found"@),
        Err(_) => text_response(Status::StoreFault, "Failed to query vehicle"@),
    }
}

/// The response to the registration of a vehicle.
pub open spec fn post_vehicle_response(reply: Result<RecordView, Seq<char>>) -> ResponseView {
    match reply {
        Ok(record) => success_response(BodyView::Id(record.id)),
        Err(_) => text_response(Status::StoreFault, "Failed to create vehicle"@),
    }
}

/// The response to the removal of a vehicle.
pub open spec fn delete_vehicle_by_id_response(
    reply: Result<Option<RecordView>, Seq<char>>,
) -> ResponseView {
    match reply {
        Ok(Some(_)) => text_response(Status::Success, "Vehicle deleted"@),
        Ok(None) => text_response(Status::NotFound, "Vehicle not found"@),
        Err(_) => text_response(Status::StoreFault, "Failed to delete vehicle"@),
    }
}

/// The response to a lookup of a vehicle's latest odometer reading.
pub open spec fn get_vehicle_odometer_by_id_response(
    reply: Result<Option<OdometerLatestView>, Seq<char>>,
) -> ResponseView {
    match reply {
        Ok(Some(latest)) => success_response(BodyView::Odometer(latest)),
        Ok(None) => text_response(Status::NotFound, "No odometer record"@),
        Err(_) => text_response(Status::StoreFault, "Failed to query odometer"@),
    }
}

/// Whether a failure text reports a broken reference between tables.
pub open spec fn mentions_foreign_key(message: Seq<char>) -> bool {
    occurs_in(message, "foreign key constraint"@)
}

/// The response to a failed attempt to append an odometer reading.
pub open spec fn post_odometer_failure_response(message: Seq<char>) -> ResponseView {
    if mentions_foreign_key(message) {
        text_response(Status::BadInput, "Invalid vehicle ID"@)
    } else {
        text_response(Status::StoreFault, "Internal Server Error"@)
    }
}

/// The response to an attempt to append an odometer reading.
pub open spec fn post_odometer_response(reply: Result<(), Seq<char>>) -> ResponseView {
    match reply {
        Ok(_) => text_response(Status::Success, "Odometer updated successfully"@),
        Err(message) => post_odometer_failure_response(message),
    }
}

/// Answers the root operation, which serves as a liveness check.
pub fn index() -> (response: Response)
    ensures
        response@ == index_response(),
{
    Response::text(Status::Success, "Hello, World!")
}

/// The statement that lists all vehicles.
pub fn get_vehicles_statement() -> (statement: Statement)
    ensures
        statement@ == StatementView::SelectVehicles,
{
    Statement::SelectVehicles
}

/// Answers a listing of all vehicles: every row that the store returned, in
/// the store's order, with their count.
pub fn get_vehicles(outcome: Result<Vec<VehicleModel>, StoreError>) -> (response: Response)
    ensures
        response@ == get_vehicles_response(outcome_view(outcome)),
{
    match outcome {
        Ok(vehicles) => {
            let rows: usize = vehicles.len();
            Response::success(Body::Vehicles { rows, vehicles })
        },
        Err(_) => Response::text(Status::StoreFault, "Failed to query vehicles"),
    }
}

/// The statement that looks up the vehicle `vehicle_id`.
pub fn get_vehicle_by_id_statement(vehicle_id: i32) -> (statement: Statement)
    ensures
        statement@ == (StatementView::SelectVehicle { id: vehicle_id as int }),
{
    Statement::SelectVehicle { id: vehicle_id }
}

/// Answers a lookup of one vehicle.
pub fn get_vehicle_by_id(outcome: Result<Option<VehicleModel>, StoreError>) -> (response: Response)
    ensures
        response@ == get_vehicle_by_id_response(outcome_view(outcome)),
{
    match outcome {
        Ok(Some(vehicle)) => Response::success(Body::Vehicle(vehicle)),
        Ok(None) => Response::text(Status::NotFound, "Vehicle not found"),
        Err(_) => Response::text(Status::StoreFault, "Failed to query vehicle"),
    }
}

/// The statement that registers the vehicle described by `request`.
pub fn post_vehicle_statement(request: PostVehicle) -> (statement: Statement)
    ensures
        statement@ == (StatementView::InsertVehicle {
            name: request@.name,
            description: request@.description,
        }),
{
    Statement::InsertVehicle { name: request.name, description: request.description }
}

/// Answers the registration of a vehicle with the id that the store assigned.
pub fn post_vehicle(outcome: Result<Record, StoreError>) -> (response: Response)
    ensures
        response@ == post_vehicle_response(outcome_view(outcome)),
{
    match outcome {
        Ok(record) => Response::success(Body::Id(record.id)),
        Err(_) => Response::text(Status::StoreFault, "Failed to create vehicle"),
    }
}

/// The statement that removes the vehicle `vehicle_id`.
pub fn delete_vehicle_by_id_statement(vehicle_id: i32) -> (statement: Statement)
    ensures
        statement@ == (StatementView::DeleteVehicle { id: vehicle_id as int }),
{
    Statement::DeleteVehicle { id: vehicle_id }
}

/// Answers the removal of a vehicle.
pub fn delete_vehicle_by_id(outcome: Result<Option<Record>, StoreError>) -> (response: Response)
    ensures
        response@ == delete_vehicle_by_id_response(outcome_view(outcome)),
{
    match outcome {
        Ok(Some(_)) => Response::text(Status::Success, "Vehicle deleted"),
        Ok(None) => Response::text(Status::NotFound, "Vehicle not found"),
        Err(_) => Response::text(Status::StoreFault, "Failed to delete vehicle"),
    }
}

/// The statement that looks up the latest odometer reading of `vehicle_id`.
pub fn get_vehicle_odometer_by_id_statement(vehicle_id: i32) -> (statement: Statement)
    ensures
        statement@ == (StatementView::SelectLatestOdometer { vehicle_id: vehicle_id as int }),
{
    Statement::SelectLatestOdometer { vehicle_id }
}

/// Answers a lookup of a vehicle's latest odometer reading.
pub fn get_vehicle_odometer_by_id(
    outcome: Result<Option<OdometerLatestModel>, StoreError>,
) -> (response: Response)
    ensures
        response@ == get_vehicle_odometer_by_id_response(outcome_view(outcome)),
{
    match outcome {
        Ok(Some(latest)) => Response::success(Body::Odometer(latest)),
        Ok(None) => Response::text(Status::NotFound, "No odometer record"),
        Err(_) => Response::text(Status::StoreFault, "Failed to query odometer"),
    }
}

/// The statement that appends the reading in `request` to the history of
/// `vehicle_id`.
pub fn post_odometer_statement(vehicle_id: i32, request: PostOdometer) -> (statement: Statement)
    ensures
        statement@ == (StatementView::InsertOdometer {
            vehicle_id: vehicle_id as int,
            odometer: request.odometer as int,
        }),
{
    Statement::InsertOdometer { vehicle_id, odometer: request.odometer }
}

/// Answers a failed attempt to append an odometer reading: a failure whose
/// text reports a broken reference is the caller's fault, every other one the
/// store's.
pub fn post_odometer_failure(message: &str) -> (response: Response)
    ensures
        response@ == post_odometer_failure_response(message@),
{
    if contains(message, "foreign key constraint") {
        Response::text(Status::BadInput, "Invalid vehicle ID")
    } else {
        Response::text(Status::StoreFault, "Internal Server Error")
    }
}

/// Answers an attempt to append an odometer reading.
pub fn post_odometer(outcome: Result<(), StoreError>) -> (response: Response)
    ensures
        response@ == post_odometer_response(outcome_view(outcome)),
{
    match outcome {
        Ok(_) => Response::text(Status::Success, "Odometer updated successfully"),
        Err(failure) => post_odometer_failure(failure.message.as_str()),
    }
}

} // verus!
