use vehicle_service::handlers::{
    delete_vehicle_by_id, delete_vehicle_by_id_statement, get_vehicle_by_id,
    get_vehicle_by_id_statement, get_vehicle_odometer_by_id, get_vehicle_odometer_by_id_statement,
    get_vehicles, post_odometer, post_odometer_statement, post_vehicle, post_vehicle_statement,
};
use vehicle_service::model::{OdometerLatestModel, PostOdometer, PostVehicle, Record, VehicleModel};
use vehicle_service::response::{Body, Response, Status};
use vehicle_service::statement::Statement;
use vehicle_service::store::{store_outcome, StoreError};

fn text(status: Status, message: &str) -> Response {
    Response { status, body: Body::Text(message.to_string()) }
}

#[test]
fn a_registered_vehicle_is_answered_with_its_id_and_then_found() {
    let request = PostVehicle { name: "Truck".to_string(), description: "Red pickup".to_string() };
    let statement = post_vehicle_statement(request);
    assert_eq!(
        statement,
        Statement::InsertVehicle {
            name: "Truck".to_string(),
            description: "Red pickup".to_string(),
        }
    );
    let created = post_vehicle(store_outcome(Ok(Record { id: 12 })));
    assert_eq!(created.status.code(), 200);
    assert_eq!(created.body, Body::Id(12));

    assert_eq!(get_vehicle_by_id_statement(12), Statement::SelectVehicle { id: 12 });
    let row = VehicleModel {
        id: 12,
        name: "Truck".to_string(),
        description: "Red pickup".to_string(),
    };
    let found = get_vehicle_by_id(store_outcome(Ok(Some(row.clone()))));
    assert_eq!(found, Response { status: Status::Success, body: Body::Vehicle(row) });
}

#[test]
fn an_id_that_was_never_assigned_is_not_found() {
    assert_eq!(get_vehicle_by_id_statement(2_000_000_000), Statement::SelectVehicle { id: 2_000_000_000 });
    let response = get_vehicle_by_id(store_outcome(Ok(None)));
    assert_eq!(response, text(Status::NotFound, "Vehicle not found"));
    assert_eq!(response.status.code(), 404);
}

#[test]
fn a_listing_is_not_cut_short() {
    let mut rows = Vec::new();
    for id in 1..=250 {
        rows.push(VehicleModel {
            id,
            name: format!("Vehicle {}", id),
            description: String::new(),
        });
    }
    let response = get_vehicles(store_outcome(Ok(rows.clone())));
    assert_eq!(response.status, Status::Success);
    match response.body {
        Body::Vehicles { rows: count, vehicles } => {
            assert_eq!(count, 250);
            assert_eq!(vehicles, rows);
        }
        other => panic!("unexpected body {:?}", other),
    }
}

#[test]
fn a_vehicle_is_removed_once() {
    assert_eq!(delete_vehicle_by_id_statement(12), Statement::DeleteVehicle { id: 12 });
    let first = delete_vehicle_by_id(store_outcome(Ok(Some(Record { id: 12 }))));
    assert_eq!(first, text(Status::Success, "Vehicle deleted"));
    let second = delete_vehicle_by_id(store_outcome(Ok(None)));
    assert_eq!(second, text(Status::NotFound, "Vehicle not found"));
}

#[test]
fn a_posted_reading_is_the_latest() {
    let statement = post_odometer_statement(12, PostOdometer { odometer: 1500 });
    assert_eq!(statement, Statement::InsertOdometer { vehicle_id: 12, odometer: 1500 });
    assert_eq!(post_odometer(Ok(())), text(Status::Success, "Odometer updated successfully"));

    assert_eq!(
        get_vehicle_odometer_by_id_statement(12),
        Statement::SelectLatestOdometer { vehicle_id: 12 }
    );
    let row = OdometerLatestModel {
        vehicle_id: 12,
        vehicle_name: "Truck".to_string(),
        odometer: 1500,
        timestamp: 1_790_000_000_123_456,
    };
    let response = get_vehicle_odometer_by_id(Ok(Some(row)));
    assert_eq!(response.status.code(), 200);
    match response.body {
        Body::Odometer(latest) => {
            assert_eq!(latest.vehicle_id, 12);
            assert_eq!(latest.vehicle_name, "Truck");
            assert_eq!(latest.odometer, 1500);
            assert_eq!(latest.timestamp, 1_790_000_000_123_456);
        }
        other => panic!("unexpected body {:?}", other),
    }
}

#[test]
fn a_reading_for_a_missing_vehicle_is_bad_input() {
    let statement = post_odometer_statement(-1, PostOdometer { odometer: 10 });
    assert_eq!(statement, Statement::InsertOdometer { vehicle_id: -1, odometer: 10 });
    let refused = StoreError {
        message: "error returned from database: insert or update on table \"vehicle_odometer\" \
                  violates foreign key constraint \"vehicle_odometer_vehicle_id_fkey\""
            .to_string(),
    };
    let response = post_odometer(Err(refused));
    assert_eq!(response, text(Status::BadInput, "Invalid vehicle ID"));
    assert_eq!(response.status.code(), 400);
    assert_ne!(response.status, Status::StoreFault);
}

#[test]
fn the_store_picks_the_later_of_two_readings() {
    let later = OdometerLatestModel {
        vehicle_id: 12,
        vehicle_name: "Truck".to_string(),
        odometer: 900,
        timestamp: 1_790_000_060_000_000,
    };
    let response = get_vehicle_odometer_by_id(Ok(Some(later.clone())));
    assert_eq!(response, Response { status: Status::Success, body: Body::Odometer(later) });
}

#[test]
fn a_vehicle_without_readings_has_no_latest() {
    let response = get_vehicle_odometer_by_id(store_outcome(Ok(None)));
    assert_eq!(response, text(Status::NotFound, "No odometer record"));
    assert_eq!(response.status.code(), 404);
}
