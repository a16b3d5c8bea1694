//! What the service answers: a status and a body.

use crate::model::{OdometerLatestModel, OdometerLatestView, VehicleModel, VehicleView};
use vstd::prelude::*;

verus! {

/// How a request ended.
#[derive(Debug, Clone, Copy, PartialEq, Eq)]
pub enum Status {
    /// The request was carried out.
    Success,
    /// The request names something that the store's constraints refuse.
    BadInput,
    /// No row has the requested id.
    NotFound,
    /// The store failed in any other way.
    StoreFault,
}

impl Status {
    /// The HTTP status code that reports this status.
    pub open spec fn code_spec(self) -> int {
        match self {
            Status::Success => 200,
            Status::BadInput => 400,
            Status::NotFound => 404,
            Status::StoreFault => 500,
        }
    }

    /// The HTTP status code that reports this status.
    pub fn code(&self) -> (code: u16)
        ensures
            code == self.code_spec(),
    {
        match self {
            Status::Success => 200,
            Status::BadInput => 400,
            Status::NotFound => 404,
            Status::StoreFault => 500,
        }
    }
}

/// The payload of a response. `Text` goes out as plain text, every other
/// variant as JSON.
#[derive(Debug, Clone, PartialEq, Eq)]
pub enum Body {
    /// A fixed message.
    Text(String),
    /// The id of a row, as a bare JSON number.
    Id(i32),
    /// One vehicle.
    Vehicle(VehicleModel),
    /// Every vehicle, with their count.
    Vehicles { rows: usize, vehicles: Vec<VehicleModel> },
    /// The latest odometer reading of one vehicle.
    Odometer(OdometerLatestModel),
}

/// What a [`Body`] stands for.
pub enum BodyView {
    Text(Seq<char>),
    Id(int),
    Vehicle(VehicleView),
    Vehicles { rows: int, vehicles: Seq<VehicleView> },
    Odometer(OdometerLatestView),
}

impl View for Body {
    type V = BodyView;

    open spec fn view(&self) -> BodyView {
        match self {
            Body::Text(text) => BodyView::Text(text@),
            Body::Id(id) => BodyView::Id(*id as int),
            Body::Vehicle(vehicle) => BodyView::Vehicle(vehicle@),
            Body::Vehicles { rows, vehicles } => BodyView::Vehicles {
                rows: *rows as int,
                vehicles: vehicles.deep_view(),
            },
            Body::Odometer(latest) => BodyView::Odometer(latest@),
        }
    }
}

/// A response of the service.
#[derive(Debug, Clone, PartialEq, Eq)]
pub struct Response {
    pub status: Status,
    pub body: Body,
}

/// What a [`Response`] stands for.
pub struct ResponseView {
    pub status: Status,
    pub body: BodyView,
}

impl View for Response {
    type V = ResponseView;

    open spec fn view(&self) -> ResponseView {
        ResponseView { status: self.status, body: self.body@ }
    }
}

/// The response with status `status` and the plain text `text`.
pub open spec fn text_response(status: Status, text: Seq<char>) -> ResponseView {
    ResponseView { status, body: BodyView::Text(text) }
}

/// The successful response that carries `body`.
pub open spec fn success_response(body: BodyView) -> ResponseView {
    ResponseView { status: Status::Success, body }
}

impl Response {
    /// The response with status `status` and the plain text `text`.
    pub fn text(status: Status, text: &str) -> (response: Response)
        ensures
            response@ == text_response(status, text@),
    {
        Response { status, body: Body::Text(text.to_owned()) }
    }

    /// The successful response that carries `body`.
    pub fn success(body: Body) -> (response: Response)
        ensures
            response@ == success_response(body@),
    {
        Response { status: Status::Success, body }
    }
}

} // verus!
