//! What holds of whole exchanges between the service and a store that keeps
//! its constraints.

use crate::handlers::{
    delete_vehicle_by_id_response, get_vehicle_by_id_response, get_vehicle_odometer_by_id_response,
    get_vehicles_response, post_odometer_response, post_vehicle_response,
};
use crate::model::{OdometerLatestView, PostVehicleView, RecordView, VehicleView};
use crate::response::{success_response, text_response, BodyView, Status};
use crate::schema::{valid_id, Tables};
use crate::statement::StatementView;
use vstd::prelude::*;
use vstd::set_lib::lemma_len_subset;

verus! {

/// The vehicle that the store files under `id` for `request`.
pub open spec fn registered(request: PostVehicleView, id: int) -> VehicleView {
    VehicleView { id, name: request.name, description: request.description }
}

/// Registering a vehicle keeps the store's constraints.
pub proof fn insert_vehicle_keeps_constraints(before: Tables, request: PostVehicleView, id: int)
    requires
        before.wf(),
        before.can_issue(id),
    ensures
        before.insert_vehicle(request, id).wf(),
{
    let after = before.insert_vehicle(request, id);
    assert forall|other: int| #[trigger] after.has_vehicle(other) implies valid_id(other)
        && after.issued.contains(other) && after.vehicles[other].id == other by {
        if other != id {
            assert(before.has_vehicle(other));
        }
    }
}

/// Removing a vehicle keeps the store's constraints: no reading is left
/// without its vehicle.
pub proof fn delete_vehicle_keeps_constraints(before: Tables, id: int)
    requires
        before.wf(),
    ensures
        before.delete_vehicle(id).wf(),
{
    let after = before.delete_vehicle(id);
    if before.can_delete(id) {
        assert forall|other: int| #[trigger] after.has_vehicle(other) implies valid_id(other)
            && after.issued.contains(other) && after.vehicles[other].id == other by {
            assert(before.has_vehicle(other));
        }
    }
}

/// Appending a reading keeps the store's constraints, as long as the store's
/// clock has not run backwards. The reading's timestamp is the clock's: the
/// request has no say in it.
pub proof fn insert_reading_keeps_constraints(
    before: Tables,
    vehicle_id: int,
    odometer: int,
    now: int,
)
    requires
        before.wf(),
        before.clock <= now,
    ensures
        before.insert_reading(vehicle_id, odometer, now).wf(),
        before.insert_reading(vehicle_id, odometer, now).vehicles == before.vehicles,
{
    let after = before.insert_reading(vehicle_id, odometer, now);
    if before.has_vehicle(vehicle_id) {
        assert forall|other: int| #[trigger] after.has_vehicle(other) implies valid_id(other)
            && after.issued.contains(other) && after.vehicles[other].id == other by {
            assert(before.has_vehicle(other));
        }
    }
}

/// Whatever statement the service puts to the store, the store's constraints
/// hold afterwards, as long as the store assigns a fresh id to a new vehicle
/// and its clock has not run backwards.
pub proof fn every_statement_keeps_constraints(
    before: Tables,
    statement: StatementView,
    id: int,
    now: int,
)
    requires
        before.wf(),
        statement is InsertVehicle ==> before.can_issue(id),
        statement is InsertOdometer ==> before.clock <= now,
    ensures
        before.execute(statement, id, now).wf(),
{
    match statement {
        StatementView::InsertVehicle { name, description } => {
            insert_vehicle_keeps_constraints(before, PostVehicleView { name, description }, id);
        },
        StatementView::DeleteVehicle { id: removed } => {
            delete_vehicle_keeps_constraints(before, removed);
        },
        StatementView::InsertOdometer { vehicle_id, odometer } => {
            insert_reading_keeps_constraints(before, vehicle_id, odometer, now);
        },
        _ => {},
    }
}

/// A vehicle that has just been registered is answered with the id that the
/// store assigned, which is positive, and a lookup of that id then finds the
/// vehicle with this id and the name and description of the request.
pub proof fn registered_vehicle_is_found(before: Tables, request: PostVehicleView, id: int)
    requires
        before.wf(),
        before.can_issue(id),
    ensures
        id > 0,
        post_vehicle_response(Ok(RecordView { id })) == success_response(BodyView::Id(id)),
        get_vehicle_by_id_response(Ok(before.insert_vehicle(request, id).select_vehicle(id)))
            == success_response(BodyView::Vehicle(registered(request, id))),
{
}

/// A lookup of an id that the store has never assigned finds nothing.
pub proof fn unknown_vehicle_is_not_found(tables: Tables, id: int)
    requires
        tables.wf(),
        !tables.issued.contains(id),
    ensures
        get_vehicle_by_id_response(Ok(tables.select_vehicle(id))) == text_response(
            Status::NotFound,
            "Vehicle not found"@,
        ),
{
}

/// After a run of registrations every one of the new vehicles has its row,
/// and the store's constraints hold.
proof fn registrations_are_kept(before: Tables, requests: Seq<PostVehicleView>, ids: Seq<int>)
    requires
        before.wf(),
        ids.len() == requests.len(),
        ids.no_duplicates(),
        forall|i: int| 0 <= i < ids.len() ==> before.can_issue(#[trigger] ids[i]),
    ensures
        before.insert_vehicles(requests, ids).wf(),
        before.insert_vehicles(requests, ids).issued == before.issued.union(ids.to_set()),
        forall|i: int|
            0 <= i < ids.len() ==> before.insert_vehicles(requests, ids).select_vehicle(
                #[trigger] ids[i],
            ) == Some(registered(requests[i], ids[i])),
    decreases requests.len(),
{
    let after = before.insert_vehicles(requests, ids);
    if requests.len() > 0 {
        let earlier_requests = requests.drop_last();
        let earlier_ids = ids.drop_last();
        let earlier = before.insert_vehicles(earlier_requests, earlier_ids);
        registrations_are_kept(before, earlier_requests, earlier_ids);
        let id = ids.last();
        insert_vehicle_keeps_constraints(earlier, requests.last(), id);
        assert forall|i: int| 0 <= i < ids.len() implies after.select_vehicle(#[trigger] ids[i])
            == Some(registered(requests[i], ids[i])) by {
            if i < ids.len() - 1 {
                assert(earlier.select_vehicle(earlier_ids[i]) == Some(
                    registered(earlier_requests[i], earlier_ids[i]),
                ));
            }
        }
    }
}

/// A listing holds every vehicle that was registered before it, none of them
/// twice: after `n` registrations it shows at least `n` rows, and `rows`
/// counts them all.
pub proof fn listing_holds_every_registered_vehicle(
    before: Tables,
    requests: Seq<PostVehicleView>,
    ids: Seq<int>,
    rows: Seq<VehicleView>,
)
    requires
        before.wf(),
        ids.len() == requests.len(),
        ids.no_duplicates(),
        forall|i: int| 0 <= i < ids.len() ==> before.can_issue(#[trigger] ids[i]),
        before.insert_vehicles(requests, ids).lists(rows),
    ensures
        get_vehicles_response(Ok(rows)) == success_response(
            BodyView::Vehicles { rows: rows.len() as int, vehicles: rows },
        ),
        rows.len() >= requests.len(),
        forall|i: int|
            0 <= i < requests.len() ==> rows.contains(
                registered(#[trigger] requests[i], ids[i]),
            ),
{
    registrations_are_kept(before, requests, ids);
    let row_ids = rows.map_values(|row: VehicleView| row.id);
    assert(ids.to_set().subset_of(row_ids.to_set())) by {
        assert forall|x: int| ids.to_set().contains(x) implies row_ids.to_set().contains(x) by {
            let i = choose|i: int| 0 <= i < ids.len() && ids[i] == x;
            let k = choose|k: int| 0 <= k < rows.len() && rows[k] == registered(requests[i], ids[i]);
            assert(row_ids[k] == x);
        }
    }
    ids.unique_seq_to_set();
    row_ids.lemma_cardinality_of_set();
    vstd::seq_lib::seq_to_set_is_finite(row_ids);
    lemma_len_subset(ids.to_set(), row_ids.to_set());
}

/// A vehicle to which no reading refers is removed by the first request that
/// asks for it, and the same request, made again, finds nothing.
pub proof fn removed_vehicle_is_gone(
    before: Tables,
    id: int,
    first: Result<Option<RecordView>, Seq<char>>,
    second: Result<Option<RecordView>, Seq<char>>,
)
    requires
        before.wf(),
        before.has_vehicle(id),
        !before.has_reading(id),
        before.answers_delete(id, first),
        before.delete_vehicle(id).answers_delete(id, second),
    ensures
        delete_vehicle_by_id_response(first) == text_response(Status::Success, "Vehicle deleted"@),
        delete_vehicle_by_id_response(second) == text_response(
            Status::NotFound,
            "Vehicle not found"@,
        ),
{
}

/// A vehicle to which a reading refers stays: the store refuses the removal,
/// and the request fails as a fault of the store.
pub proof fn vehicle_with_readings_stays(
    before: Tables,
    id: int,
    reply: Result<Option<RecordView>, Seq<char>>,
)
    requires
        before.wf(),
        before.has_reading(id),
        before.answers_delete(id, reply),
    ensures
        before.delete_vehicle(id) == before,
        delete_vehicle_by_id_response(reply) == text_response(
            Status::StoreFault,
            "Failed to delete vehicle"@,
        ),
{
}

/// A reading that is appended when the store's clock is past every earlier
/// reading of the vehicle is accepted, and a lookup of the vehicle's latest
/// reading then returns it: the vehicle's id and name, the odometer value of
/// the request, and the timestamp of the store's clock.
pub proof fn appended_reading_is_latest(
    before: Tables,
    vehicle_id: int,
    odometer: int,
    now: int,
    appended: Result<(), Seq<char>>,
    latest: Option<OdometerLatestView>,
)
    requires
        before.wf(),
        before.has_vehicle(vehicle_id),
        before.clock <= now,
        forall|i: int|
            0 <= i < before.readings.len() && (#[trigger] before.readings[i]).vehicle_id
                == vehicle_id ==> before.readings[i].timestamp < now,
        before.answers_insert_reading(vehicle_id, appended),
        before.insert_reading(vehicle_id, odometer, now).answers_latest(vehicle_id, latest),
    ensures
        post_odometer_response(appended) == text_response(
            Status::Success,
            "Odometer updated successfully"@,
        ),
        get_vehicle_odometer_by_id_response(Ok(latest)) == success_response(
            BodyView::Odometer(
                OdometerLatestView {
                    vehicle_id,
                    vehicle_name: before.vehicles[vehicle_id].name,
                    odometer,
                    timestamp: now,
                },
            ),
        ),
{
    let after = before.insert_reading(vehicle_id, odometer, now);
    let end = before.readings.len() as int;
    assert(after.readings[end].vehicle_id == vehicle_id);
}

/// A reading for a vehicle that has no row is refused as bad input, not as a
/// fault of the store, and nothing is written.
pub proof fn reading_of_unknown_vehicle_is_bad_input(
    before: Tables,
    vehicle_id: int,
    odometer: int,
    now: int,
    reply: Result<(), Seq<char>>,
)
    requires
        before.wf(),
        !before.has_vehicle(vehicle_id),
        before.answers_insert_reading(vehicle_id, reply),
    ensures
        post_odometer_response(reply) == text_response(Status::BadInput, "Invalid vehicle ID"@),
        before.insert_reading(vehicle_id, odometer, now) == before,
{
}

/// Of two readings appended one after the other for one vehicle, the second
/// at a later time of the store's clock, a lookup of the latest reading
/// returns the second.
pub proof fn later_reading_wins(
    before: Tables,
    vehicle_id: int,
    first: int,
    second: int,
    first_time: int,
    second_time: int,
    latest: Option<OdometerLatestView>,
)
    requires
        before.wf(),
        before.has_vehicle(vehicle_id),
        before.clock <= first_time < second_time,
        before.insert_reading(vehicle_id, first, first_time).insert_reading(
            vehicle_id,
            second,
            second_time,
        ).answers_latest(vehicle_id, latest),
    ensures
        get_vehicle_odometer_by_id_response(Ok(latest)) == success_response(
            BodyView::Odometer(
                OdometerLatestView {
                    vehicle_id,
                    vehicle_name: before.vehicles[vehicle_id].name,
                    odometer: second,
                    timestamp: second_time,
                },
            ),
        ),
{
    let between = before.insert_reading(vehicle_id, first, first_time);
    insert_reading_keeps_constraints(before, vehicle_id, first, first_time);
    appended_reading_is_latest(between, vehicle_id, second, second_time, Ok(()), latest);
}

/// A lookup of the latest reading of a vehicle that has no reading finds
/// nothing.
pub proof fn vehicle_without_readings_has_no_latest(
    tables: Tables,
    vehicle_id: int,
    latest: Option<OdometerLatestView>,
)
    requires
        tables.wf(),
        !tables.has_reading(vehicle_id),
        tables.answers_latest(vehicle_id, latest),
    ensures
        get_vehicle_odometer_by_id_response(Ok(latest)) == text_response(
            Status::NotFound,
            "No odometer record"@,
        ),
{
}

} // verus!
