use vstd::prelude::*;

use crate::decimal::Decimal;
use crate::dto::RecordModel;
use crate::dto::RosterItem;
use crate::http::api::parse_uuid_str;
use crate::http::api::parsed_uuid;
use crate::http::api::ApiError;
use crate::http::api::ApiSuccess;
use crate::http::api::STATUS_CREATED;
use crate::http::api::STATUS_OK;
use crate::roster_repo::RosterRepo;
use crate::store::after_create;
use crate::store::after_update;
use crate::store::can_create;
use crate::store::can_update;
use crate::store::has_email;
use crate::store::has_id;
use crate::store::row_with;

verus! {

/// The body of a roster create request: every field but the identifier,
/// which storage assigns.  It abstracts to a record under the nil
/// placeholder identifier.
#[derive(Debug)]
pub struct CreateRosterItemRequest {
    pub first_name: String,
    pub last_name: String,
    pub email: String,
    pub salary: Decimal,
}

impl View for CreateRosterItemRequest {
    type V = RecordModel;

    open spec fn view(&self) -> RecordModel {
        RecordModel {
            id: 0,
            first_name: self.first_name@,
            last_name: self.last_name@,
            email: self.email@,
            salary: self.salary,
        }
    }
}

/// The body of a roster update request: the full record, identifier
/// included.
#[derive(Debug)]
pub struct UpdateRosterItemRequest {
    pub id: u128,
    pub first_name: String,
    pub last_name: String,
    pub email: String,
    pub salary: Decimal,
}

impl View for UpdateRosterItemRequest {
    type V = RecordModel;

    open spec fn view(&self) -> RecordModel {
        RecordModel {
            id: self.id,
            first_name: self.first_name@,
            last_name: self.last_name@,
            email: self.email@,
            salary: self.salary,
        }
    }
}

/// What a fetched roster record answers with.
#[derive(Debug)]
pub struct GetRosterItemResponse {
    pub id: u128,
    pub first_name: String,
    pub last_name: String,
    pub email: String,
    pub salary: Decimal,
}

impl View for GetRosterItemResponse {
    type V = RecordModel;

    open spec fn view(&self) -> RecordModel {
        RecordModel {
            id: self.id,
            first_name: self.first_name@,
            last_name: self.last_name@,
            email: self.email@,
            salary: self.salary,
        }
    }
}

/// What a successful roster create answers with.
#[derive(Debug)]
pub struct CreateRosterItemResponse {
    pub id: u128,
    pub first_name: String,
    pub last_name: String,
    pub email: String,
    pub salary: Decimal,
}

impl View for CreateRosterItemResponse {
    type V = RecordModel;

    open spec fn view(&self) -> RecordModel {
        RecordModel {
            id: self.id,
            first_name: self.first_name@,
            last_name: self.last_name@,
            email: self.email@,
            salary: self.salary,
        }
    }
}

/// What a successful roster update answers with.
#[derive(Debug)]
pub struct UpdateRosterItemResponse {
    pub id: u128,
    pub first_name: String,
    pub last_name: String,
    pub email: String,
    pub salary: Decimal,
}

impl View for UpdateRosterItemResponse {
    type V = RecordModel;

    open spec fn view(&self) -> RecordModel {
        RecordModel {
            id: self.id,
            first_name: self.first_name@,
            last_name: self.last_name@,
            email: self.email@,
            salary: self.salary,
        }
    }
}

impl RosterItem {
    /// The internal record for a roster create request: the identifier
    /// is the nil placeholder that storage replaces.
    pub fn from_create_request(value: &CreateRosterItemRequest) -> (r: RosterItem)
        ensures
            r@ == value@,
    {
        RosterItem {
            id: 0,
            first_name: value.first_name.clone(),
            last_name: value.last_name.clone(),
            email: value.email.clone(),
            salary: value.salary,
        }
    }

    /// The internal record for a roster update request.
    pub fn from_update_request(value: &UpdateRosterItemRequest) -> (r: RosterItem)
        ensures
            r@ == value@,
    {
        RosterItem {
            id: value.id,
            first_name: value.first_name.clone(),
            last_name: value.last_name.clone(),
            email: value.email.clone(),
            salary: value.salary,
        }
    }
}

impl GetRosterItemResponse {
    /// The response body for a fetched roster record.
    pub fn of_roster_item(value: &RosterItem) -> (r: Self)
        ensures
            r@ == value@,
    {
        GetRosterItemResponse {
            id: value.id,
            first_name: value.first_name.clone(),
            last_name: value.last_name.clone(),
            email: value.email.clone(),
            salary: value.salary,
        }
    }
}

impl CreateRosterItemResponse {
    /// The response body for a created roster record.
    pub fn of_roster_item(value: &RosterItem) -> (r: Self)
        ensures
            r@ == value@,
    {
        CreateRosterItemResponse {
            id: value.id,
            first_name: value.first_name.clone(),
            last_name: value.last_name.clone(),
            email: value.email.clone(),
            salary: value.salary,
        }
    }
}

impl UpdateRosterItemResponse {
    /// The response body for an updated roster record.
    pub fn of_roster_item(value: &RosterItem) -> (r: Self)
        ensures
            r@ == value@,
    {
        UpdateRosterItemResponse {
            id: value.id,
            first_name: value.first_name.clone(),
            last_name: value.last_name.clone(),
            email: value.email.clone(),
            salary: value.salary,
        }
    }
}

/// Creates a roster record from the request body and answers 201 with
/// the stored record, which carries the assigned identifier.  A taken
/// email is unprocessable; any other storage failure is internal.
pub fn create_roster_item<RR: RosterRepo>(repo: &mut RR, body: CreateRosterItemRequest) -> (r:
    Result<ApiSuccess<CreateRosterItemResponse>, ApiError>)
    requires
        old(repo).inv(),
    ensures
        final(repo).inv(),
        r is Ok <==> can_create(old(repo).roster(), body@),
        r matches Ok(s) ==> (s.status == STATUS_CREATED && s.body.status_code == STATUS_CREATED
            && s.body.data@ == body@.with_id(old(repo).roster().next_id) && final(repo).roster()
            == after_create(old(repo).roster(), body@)),
        r is Err ==> final(repo).roster() == old(repo).roster(),
        r matches Err(e) ==> (if has_email(old(repo).roster().rows, body@.email) {
            e is UnprocessableEntity
        } else {
            e is InternalServerError
        }),
{
    let domain_req = RosterItem::from_create_request(&body);
    match repo.create(&domain_req) {
        Ok(ri) => Ok(ApiSuccess::new(STATUS_CREATED, CreateRosterItemResponse::of_roster_item(&ri))),
        Err(e) => Err(ApiError::from_roster_item_error(e)),
    }
}

/// Replaces the roster record named by the body's identifier and answers
/// 201 with the updated record.  An absent row or a colliding email is
/// an internal failure, as the gateway reports both unclassified.
pub fn update_roster_item<RR: RosterRepo>(repo: &mut RR, body: UpdateRosterItemRequest) -> (r:
    Result<ApiSuccess<UpdateRosterItemResponse>, ApiError>)
    requires
        old(repo).inv(),
    ensures
        final(repo).inv(),
        r is Ok <==> can_update(old(repo).roster(), body@),
        r matches Ok(s) ==> (s.status == STATUS_CREATED && s.body.status_code == STATUS_CREATED
            && s.body.data@ == body@ && final(repo).roster() == after_update(
            old(repo).roster(),
            body@,
        )),
        r is Err ==> final(repo).roster() == old(repo).roster(),
        r matches Err(e) ==> e is InternalServerError,
{
    let domain_req = RosterItem::from_update_request(&body);
    match repo.update(&domain_req) {
        Ok(ri) => Ok(ApiSuccess::new(STATUS_CREATED, UpdateRosterItemResponse::of_roster_item(&ri))),
        Err(e) => Err(ApiError::from_roster_item_error(e)),
    }
}

/// Fetches the roster record named by the path identifier and answers
/// 200 with it.  A string that spells no UUID, and an identifier no row
/// carries, both answer not-found.
pub fn get_roster_item<RR: RosterRepo>(repo: &RR, id: &str) -> (r: Result<
    ApiSuccess<GetRosterItemResponse>,
    ApiError,
>)
    requires
        repo.inv(),
    ensures
        parsed_uuid(id@) is None ==> (r matches Err(e) && e matches ApiError::NotFound(m) && m@
            == "Invalid UUID"@),
        parsed_uuid(id@) matches Some(u) ==> ((has_id(repo.roster().rows, u) ==> (r matches Ok(s)
            && s.status == STATUS_OK && s.body.status_code == STATUS_OK && s.body.data@
            == row_with(repo.roster().rows, u))) && (!has_id(repo.roster().rows, u) ==> (r matches
            Err(e) && e matches ApiError::NotFound(m) && m@ == "Roster item not found"@))),
{
    let roster_item_id = match parse_uuid_str(id) {
        Some(u) => u,
        None => {
            return Err(ApiError::NotFound("Invalid UUID".to_owned()));
        },
    };
    match repo.get(roster_item_id) {
        Ok(Some(ri)) => Ok(ApiSuccess::new(STATUS_OK, GetRosterItemResponse::of_roster_item(&ri))),
        Ok(None) => Err(ApiError::NotFound("Roster item not found".to_owned())),
        Err(e) => Err(ApiError::from_roster_item_error(e)),
    }
}

} // verus!
