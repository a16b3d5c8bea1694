use vehicle_service::handlers::{
    delete_vehicle_by_id_statement, get_vehicle_by_id_statement,
    get_vehicle_odometer_by_id_statement, get_vehicles_statement, post_odometer_statement,
    post_vehicle_statement,
};
use vehicle_service::model::{PostOdometer, PostVehicle};
use vehicle_service::statement::Statement;

#[test]
fn statements_carry_the_request() {
    assert_eq!(get_vehicles_statement(), Statement::SelectVehicles);
    assert_eq!(get_vehicle_by_id_statement(7), Statement::SelectVehicle { id: 7 });
    assert_eq!(get_vehicle_by_id_statement(-1), Statement::SelectVehicle { id: -1 });
    assert_eq!(delete_vehicle_by_id_statement(7), Statement::DeleteVehicle { id: 7 });
    assert_eq!(
        get_vehicle_odometer_by_id_statement(i32::MAX),
        Statement::SelectLatestOdometer { vehicle_id: i32::MAX }
    );
    assert_eq!(
        post_vehicle_statement(PostVehicle {
            name: "Truck".to_string(),
            description: "Red pickup".to_string(),
        }),
        Statement::InsertVehicle {
            name: "Truck".to_string(),
            description: "Red pickup".to_string(),
        }
    );
    assert_eq!(
        post_odometer_statement(7, PostOdometer { odometer: 1500 }),
        Statement::InsertOdometer { vehicle_id: 7, odometer: 1500 }
    );
}

#[test]
fn statements_keep_empty_texts() {
    assert_eq!(
        post_vehicle_statement(PostVehicle { name: String::new(), description: String::new() }),
        Statement::InsertVehicle { name: String::new(), description: String::new() }
    );
}

#[test]
fn sql_of_each_statement() {
    assert_eq!(
        Statement::SelectVehicles.sql(),
        "SELECT id, \"name\", description FROM public.vehicles"
    );
    assert_eq!(
        Statement::SelectVehicle { id: 1 }.sql(),
        "SELECT id, \"name\", description FROM public.vehicles WHERE id = $1"
    );
    assert_eq!(
        Statement::InsertVehicle { name: "a".to_string(), description: "b".to_string() }.sql(),
        "INSERT INTO public.vehicles (\"name\", description) VALUES ($1, $2) RETURNING id"
    );
    assert_eq!(
        Statement::DeleteVehicle { id: 1 }.sql(),
        "DELETE FROM public.vehicles WHERE id = $1 RETURNING id"
    );
    assert_eq!(
        Statement::SelectLatestOdometer { vehicle_id: 1 }.sql(),
        "SELECT o.vehicle_id, v.name AS vehicle_name, o.odometer, o.timestamp FROM \
         vehicle_odometer o INNER JOIN vehicles v ON o.vehicle_id = v.id WHERE o.vehicle_id = $1 \
         ORDER BY o.timestamp DESC LIMIT 1"
    );
    assert_eq!(
        Statement::InsertOdometer { vehicle_id: 1, odometer: 2 }.sql(),
        "INSERT INTO public.vehicle_odometer (vehicle_id, odometer, \"timestamp\") VALUES ($1, \
         $2, (now() AT TIME ZONE 'UTC'::text))"
    );
}

#[test]
fn sql_does_not_depend_on_the_parameters() {
    assert_eq!(
        Statement::SelectVehicle { id: 1 }.sql(),
        Statement::SelectVehicle { id: -5 }.sql()
    );
    assert_eq!(
        Statement::InsertOdometer { vehicle_id: 1, odometer: 2 }.sql(),
        Statement::InsertOdometer { vehicle_id: 3, odometer: 4 }.sql()
    );
}

#[test]
fn the_reading_statement_takes_its_timestamp_from_the_store() {
    let statement = post_odometer_statement(7, PostOdometer { odometer: 1500 });
    assert!(statement.sql().contains("now() AT TIME ZONE 'UTC'"));
    assert!(!statement.sql().contains("$3"));
}
