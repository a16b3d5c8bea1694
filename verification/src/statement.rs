//! The statements that the service puts to the store.

use vstd::prelude::*;

verus! {

/// One parameterized statement, with the values bound to its placeholders
/// in the order of its fields.
#[derive(Debug, Clone, PartialEq, Eq)]
pub enum Statement {
    /// Every vehicle.
    SelectVehicles,
    /// The vehicle with the given id.
    SelectVehicle { id: i32 },
    /// A new vehicle; the store assigns and returns its id.
    InsertVehicle { name: String, description: String },
    /// Removes the vehicle with the given id and returns that id.
    DeleteVehicle { id: i32 },
    /// The reading of the given vehicle with the greatest timestamp, joined
    /// with the vehicle's name.
    SelectLatestOdometer { vehicle_id: i32 },
    /// A new reading of the given vehicle, stamped by the store with its own
    /// clock, in UTC.
    InsertOdometer { vehicle_id: i32, odometer: i32 },
}

/// What a [`Statement`] stands for.
pub enum StatementView {
    SelectVehicles,
    SelectVehicle { id: int },
    InsertVehicle { name: Seq<char>, description: Seq<char> },
    DeleteVehicle { id: int },
    SelectLatestOdometer { vehicle_id: int },
    InsertOdometer { vehicle_id: int, odometer: int },
}

impl View for Statement {
    type V = StatementView;

    open spec fn view(&self) -> StatementView {
        match self {
            Statement::SelectVehicles => StatementView::SelectVehicles,
            Statement::SelectVehicle { id } => StatementView::SelectVehicle { id: *id as int },
            Statement::InsertVehicle { name, description } => StatementView::InsertVehicle {
                name: name@,
                description: description@,
            },
            Statement::DeleteVehicle { id } => StatementView::DeleteVehicle { id: *id as int },
            Statement::SelectLatestOdometer { vehicle_id } => StatementView::SelectLatestOdometer {
                vehicle_id: *vehicle_id as int,
            },
            Statement::InsertOdometer { vehicle_id, odometer } => StatementView::InsertOdometer {
                vehicle_id: *vehicle_id as int,
                odometer: *odometer as int,
            },
        }
    }
}

impl StatementView {
    /// The SQL text of the statement, with `$1`, `$2` for its parameters.
    pub open spec fn sql(self) -> Seq<char> {
        match self {
            StatementView::SelectVehicles => "SELECT id, \"name\", description FROM public.vehicles"@,
            StatementView::SelectVehicle { .. } =>
                "SELECT id, \"name\", description FROM public.vehicles WHERE id = $1"@,
            StatementView::InsertVehicle { .. } =>
                "INSERT INTO public.vehicles (\"name\", description) VALUES ($1, $2) RETURNING id"@,
            StatementView::DeleteVehicle { .. } =>
                "DELETE FROM public.vehicles WHERE id = $1 RETURNING id"@,
            StatementView::SelectLatestOdometer { .. } =>
                "SELECT o.vehicle_id, v.name AS vehicle_name, o.odometer, o.timestamp FROM vehicle_odometer o INNER JOIN vehicles v ON o.vehicle_id = v.id WHERE o.vehicle_id = $1 ORDER BY o.timestamp DESC LIMIT 1"@,
            StatementView::InsertOdometer { .. } =>
                "INSERT INTO public.vehicle_odometer (vehicle_id, odometer, \"timestamp\") VALUES ($1, $2, (now() AT TIME ZONE 'UTC'::text))"@,
        }
    }
}

impl Statement {
    /// The SQL text of the statement, with `$1`, `$2` for its parameters.
    pub fn sql(&self) -> (text: &'static str)
        ensures
            text@ == self@.sql(),
    {
        match self {
            Statement::SelectVehicles => "SELECT id, \"name\", description FROM public.vehicles",
            Statement::SelectVehicle { .. } =>
                "SELECT id, \"name\", description FROM public.vehicles WHERE id = $1",
            Statement::InsertVehicle { .. } =>
                "INSERT INTO public.vehicles (\"name\", description) VALUES ($1, $2) RETURNING id",
            Statement::DeleteVehicle { .. } =>
                "DELETE FROM public.vehicles WHERE id = $1 RETURNING id",
            Statement::SelectLatestOdometer { .. } =>
                "SELECT o.vehicle_id, v.name AS vehicle_name, o.odometer, o.timestamp FROM vehicle_odometer o INNER JOIN vehicles v ON o.vehicle_id = v.id WHERE o.vehicle_id = $1 ORDER BY o.timestamp DESC LIMIT 1",
            Statement::InsertOdometer { .. } =>
                "INSERT INTO public.vehicle_odometer (vehicle_id, odometer, \"timestamp\") VALUES ($1, $2, (now() AT TIME ZONE 'UTC'::text))",
        }
    }
}

} // verus!
