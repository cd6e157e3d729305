//! Records of the portal's tables, as they are before the store has seen them.

use vstd::prelude::*;
use vstd::string::StringExecFns;

verus! {

/// `chrono::NaiveDate`, a date without a time zone. A value is carried from
/// where it comes to where it goes; nothing is known of what it holds.
#[verifier::external_type_specification]
#[verifier::external_body]
pub struct ExNaiveDate(chrono::NaiveDate);

/// `chrono::NaiveTime`, a time of day without a time zone. A value is
/// carried from where it comes to where it goes; nothing is known of what it
/// holds.
#[verifier::external_type_specification]
#[verifier::external_body]
pub struct ExNaiveTime(chrono::NaiveTime);

/// A user.
#[derive(Debug, Clone)]
pub struct User {
    pub id: i32,
    pub first_name: String,
    pub last_name: String,
    pub middle_name: String,
    pub email: String,
    pub phone_number: String,
    pub description: String,
    pub photo_link: String,
}

/// What a user has left on the portal.
#[derive(Debug, Clone)]
pub struct UserList {
    pub id: i32,
    pub user_id: String,
    pub review_ids: Vec<i32>,
    pub comments_ids: Vec<i32>,
    pub organizations_ids: Vec<i32>,
    pub deceaseds_ids: Vec<i32>,
}

/// What a user signs in with.
#[derive(Debug, Clone)]
pub struct UserSecrets {
    pub id: i32,
    pub user_id: String,
    pub password: String,
    pub phone_number: String,
}

/// A report on a file, to be stored.
#[derive(Debug, Clone)]
pub struct NewFileReport {
    pub file_id: i32,
    pub user_id: i32,
    pub reason: String,
    pub description: Option<String>,
    pub status: Option<String>,
}

/// A vehicle, to be stored.
#[derive(Debug, Clone)]
pub struct NewTransportVehicle {
    pub vehicle_name: String,
    pub vehicle_description: String,
    pub carrier_id: i32,
    pub model: String,
    pub route_number: Option<String>,
}

/// A run of a vehicle, to be stored.
#[derive(Debug)]
pub struct NewSchedule {
    pub vehicle_id: i32,
    pub departure_date: chrono::NaiveDate,
    pub arrival_date: chrono::NaiveDate,
    pub departure_location: String,
    pub arrival_location: String,
    pub intermediate_stops: Option<String>,
    pub departure_time: chrono::NaiveTime,
    pub arrival_time: chrono::NaiveTime,
}

/// The carrier of a vehicle, to be stored.
#[derive(Debug, Clone)]
pub struct NewCarrierInformation {
    pub vehicle_id: i32,
    pub carrier_name: String,
    pub carrier_contact_information: String,
}

/// A subscription to a forum topic, to be stored.
#[derive(Debug)]
pub struct NewForumSubscription {
    pub user_id: i32,
    pub topic_id: i32,
    pub created_at: chrono::NaiveDateTime,
}

/// A report on a forum post.
#[derive(Debug)]
pub struct ForumReport {
    pub id: i32,
    pub post_id: i32,
    pub user_id: i32,
    pub reason: String,
    pub description: String,
    pub status: String,
    pub created_at: chrono::NaiveDateTime,
}

/// The reviews after one more: behind those that were there, or alone.
pub open spec fn reviews_with(reviews: Option<Seq<Seq<char>>>, review: Seq<char>) -> Seq<Seq<char>> {
    match reviews {
        Some(before) => before.push(review),
        None => seq![review],
    }
}

/// The reviews as text.
pub open spec fn reviews_text(reviews: Option<Vec<String>>) -> Option<Seq<Seq<char>>> {
    match reviews {
        Some(list) => Some(Seq::new(list@.len(), |i: int| list@[i]@)),
        None => None,
    }
}

impl User {
    /// The user of whom nothing is known yet.
    pub fn new() -> (user: User)
        ensures
            user.id == 0,
            user.first_name@ == Seq::<char>::empty(),
            user.last_name@ == Seq::<char>::empty(),
            user.middle_name@ == Seq::<char>::empty(),
            user.email@ == Seq::<char>::empty(),
            user.phone_number@ == Seq::<char>::empty(),
            user.description@ == Seq::<char>::empty(),
            user.photo_link@ == Seq::<char>::empty(),
    {
        User {
            id: 0,
            first_name: String::new(),
            last_name: String::new(),
            middle_name: String::new(),
            email: String::new(),
            phone_number: String::new(),
            description: String::new(),
            photo_link: String::new(),
        }
    }
}

impl UserList {
    pub fn new(
        id: i32,
        user_id: String,
        review_ids: Vec<i32>,
        comments_ids: Vec<i32>,
        organizations_ids: Vec<i32>,
        deceaseds_ids: Vec<i32>,
    ) -> (list: UserList)
        ensures
            list == (UserList {
                id,
                user_id,
                review_ids,
                comments_ids,
                organizations_ids,
                deceaseds_ids,
            }),
    {
        UserList { id, user_id, review_ids, comments_ids, organizations_ids, deceaseds_ids }
    }
}

impl UserSecrets {
    /// The secrets of a user, before the store has numbered them.
    pub fn new(user_id: String, password: String, phone_number: String) -> (secrets: UserSecrets)
        ensures
            secrets == (UserSecrets { id: 0, user_id, password, phone_number }),
    {
        UserSecrets { id: 0, user_id, password, phone_number }
    }
}

impl NewFileReport {
    pub fn new(
        file_id: i32,
        user_id: i32,
        reason: String,
        description: Option<String>,
        status: Option<String>,
    ) -> (report: NewFileReport)
        ensures
            report == (NewFileReport { file_id, user_id, reason, description, status }),
    {
        NewFileReport { file_id, user_id, reason, description, status }
    }
}

impl NewTransportVehicle {
    pub fn new(
        vehicle_name: String,
        vehicle_description: String,
        carrier_id: i32,
        model: String,
        route_number: Option<String>,
    ) -> (vehicle: NewTransportVehicle)
        ensures
            vehicle == (NewTransportVehicle {
                vehicle_name,
                vehicle_description,
                carrier_id,
                model,
                route_number,
            }),
    {
        NewTransportVehicle { vehicle_name, vehicle_description, carrier_id, model, route_number }
    }
}

impl NewSchedule {
    pub fn new(
        vehicle_id: i32,
        departure_date: chrono::NaiveDate,
        arrival_date: chrono::NaiveDate,
        departure_location: String,
        arrival_location: String,
        intermediate_stops: Option<String>,
        departure_time: chrono::NaiveTime,
        arrival_time: chrono::NaiveTime,
    ) -> (schedule: NewSchedule)
        ensures
            schedule == (NewSchedule {
                vehicle_id,
                departure_date,
                arrival_date,
                departure_location,
                arrival_location,
                intermediate_stops,
                departure_time,
                arrival_time,
            }),
    {
        NewSchedule {
            vehicle_id,
            departure_date,
            arrival_date,
            departure_location,
            arrival_location,
            intermediate_stops,
            departure_time,
            arrival_time,
        }
    }
}

impl NewCarrierInformation {
    pub fn new(vehicle_id: i32, carrier_name: String, carrier_contact_information: String) -> (carrier:
        NewCarrierInformation)
        ensures
            carrier == (NewCarrierInformation {
                vehicle_id,
                carrier_name,
                carrier_contact_information,
            }),
    {
        NewCarrierInformation { vehicle_id, carrier_name, carrier_contact_information }
    }
}

impl NewForumSubscription {
    pub fn new(user_id: i32, topic_id: i32, created_at: chrono::NaiveDateTime) -> (subscription:
        NewForumSubscription)
        ensures
            subscription == (NewForumSubscription { user_id, topic_id, created_at }),
    {
        NewForumSubscription { user_id, topic_id, created_at }
    }
}

impl ForumReport {
    /// The report as it is at `created_at`, before the store has numbered
    /// it: it waits to be looked at.
    pub fn new(
        post_id: i32,
        user_id: i32,
        reason: String,
        description: String,
        created_at: chrono::NaiveDateTime,
    ) -> (report: ForumReport)
        ensures
            report.id == 0,
            report.post_id == post_id,
            report.user_id == user_id,
            report.reason == reason,
            report.description == description,
            report.status@ == "в ожидании"@,
            report.created_at == created_at,
    {
        ForumReport {
            id: 0,
            post_id,
            user_id,
            reason,
            description,
            status: String::from_str("в ожидании"),
            created_at,
        }
    }
}

/// Adds a review to the reviews of a point: behind those that are there, or
/// as the first.
pub fn add_review(reviews: &mut Option<Vec<String>>, review: String)
    ensures
        reviews_text(*final(reviews)) == Some(reviews_with(reviews_text(*old(reviews)), review@)),
{
    let ghost before = reviews_text(*reviews);
    match reviews {
        Some(list) => {
            list.push(review);
        },
        None => {
            let mut list: Vec<String> = Vec::new();
            list.push(review);
            *reviews = Some(list);
        },
    }
    assert(reviews_text(*reviews)->0 =~= reviews_with(before, review@));
}

} // verus!
