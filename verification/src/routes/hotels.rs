use vstd::prelude::*;
use vstd::string::*;

use crate::models::hotels::{Hotel, HotelResponse, UpdateHotelRequest};

verus! {

/// The public projection of a hotel row.
pub open spec fn spec_hotel_response(hotel: Hotel) -> HotelResponse {
    HotelResponse {
        id: hotel.id,
        name: hotel.name,
        description: hotel.description,
        address: hotel.address,
        city: hotel.city,
        country: hotel.country,
        rating: hotel.rating,
        total_reviews: hotel.total_reviews,
    }
}

fn clone_opt_string(s: &Option<String>) -> (r: Option<String>)
    ensures
        r == *s,
{
    match s {
        Some(v) => Some(v.clone()),
        None => None,
    }
}

/// `GET /hotels`: every stored hotel, in store order, projected to its
/// public fields.
pub fn list_hotels(hotels: &Vec<Hotel>) -> (r: Vec<HotelResponse>)
    ensures
        r@.len() == hotels@.len(),
        forall|i: int| 0 <= i < hotels@.len() ==> r@[i] == spec_hotel_response(hotels@[i]),
{
    let mut out: Vec<HotelResponse> = Vec::new();
    let n = hotels.len();
    let mut i: usize = 0;
    while i < n
        invariant
            n == hotels@.len(),
            i <= n,
            out@.len() == i,
            forall|j: int| 0 <= j < i ==> out@[j] == spec_hotel_response(hotels@[j]),
        decreases n - i,
    {
        let h = &hotels[i];
        out.push(
            HotelResponse {
                id: h.id,
                name: h.name.clone(),
                description: clone_opt_string(&h.description),
                address: h.address.clone(),
                city: h.city.clone(),
                country: h.country.clone(),
                rating: h.rating,
                total_reviews: h.total_reviews,
            },
        );
        i = i + 1;
    }
    out
}

/// `GET /hotels/{id}`: the projection of the row found under the id, or 404
/// when there is none.
pub fn get_hotel(hotel: Option<Hotel>) -> (r: Result<HotelResponse, (u16, String)>)
    ensures
        r is Ok <==> hotel is Some,
        hotel matches Some(h) ==> (r matches Ok(resp) && resp == spec_hotel_response(h)),
        r matches Err(e) ==> e.0 == 404 && e.1@ == "Hotel not found"@,
{
    match hotel {
        Some(h) => Ok(HotelResponse::from(h)),
        None => Err((404, String::from_str("Hotel not found"))),
    }
}

/// `POST /hotels`: a freshly inserted row answers 201 with its projection.
pub fn create_hotel(hotel: Hotel) -> (r: (u16, HotelResponse))
    ensures
        r.0 == 201,
        r.1 == spec_hotel_response(hotel),
{
    (201, HotelResponse::from(hotel))
}

/// The partial-update rule: a field that is present in the request
/// overwrites, a field that is absent preserves the stored value; the
/// update timestamp is always refreshed, and the id, rating, review count
/// and creation timestamp are never touched.
pub fn apply_update(hotel: &Hotel, request: &UpdateHotelRequest, now: i64) -> (r: Hotel)
    ensures
        r.id == hotel.id,
        request.name matches Some(v) ==> r.name@ == v@,
        request.name is None ==> r.name@ == hotel.name@,
        request.description matches Some(v) ==> r.description matches Some(d) && d@ == v@,
        request.description is None ==> r.description == hotel.description,
        request.address matches Some(v) ==> r.address@ == v@,
        request.address is None ==> r.address@ == hotel.address@,
        request.city matches Some(v) ==> r.city@ == v@,
        request.city is None ==> r.city@ == hotel.city@,
        request.country matches Some(v) ==> r.country@ == v@,
        request.country is None ==> r.country@ == hotel.country@,
        r.rating == hotel.rating,
        r.total_reviews == hotel.total_reviews,
        r.created_at == hotel.created_at,
        r.updated_at == now,
{
    Hotel {
        id: hotel.id,
        name: match &request.name {
            Some(v) => v.clone(),
            None => hotel.name.clone(),
        },
        description: match &request.description {
            Some(v) => Some(v.clone()),
            None => clone_opt_string(&hotel.description),
        },
        address: match &request.address {
            Some(v) => v.clone(),
            None => hotel.address.clone(),
        },
        city: match &request.city {
            Some(v) => v.clone(),
            None => hotel.city.clone(),
        },
        country: match &request.country {
            Some(v) => v.clone(),
            None => hotel.country.clone(),
        },
        rating: hotel.rating,
        total_reviews: hotel.total_reviews,
        created_at: hotel.created_at,
        updated_at: now,
    }
}

/// `PUT /hotels/{id}`: the stored row with the partial update applied, or
/// 404 when the id matched no row.
pub fn update_hotel(hotel: Option<Hotel>, request: &UpdateHotelRequest, now: i64) -> (r: Result<
    Hotel,
    (u16, String),
>)
    ensures
        r is Ok <==> hotel is Some,
        hotel matches Some(h) ==> ({
            &&& r matches Ok(updated)
            &&& updated.id == h.id
            &&& request.name matches Some(v) ==> updated.name@ == v@
            &&& request.name is None ==> updated.name@ == h.name@
            &&& request.description matches Some(v) ==> (updated.description matches Some(d)
                && d@ == v@)
            &&& request.description is None ==> updated.description == h.description
            &&& request.address matches Some(v) ==> updated.address@ == v@
            &&& request.address is None ==> updated.address@ == h.address@
            &&& request.city matches Some(v) ==> updated.city@ == v@
            &&& request.city is None ==> updated.city@ == h.city@
            &&& request.country matches Some(v) ==> updated.country@ == v@
            &&& request.country is None ==> updated.country@ == h.country@
            &&& updated.rating == h.rating
            &&& updated.total_reviews == h.total_reviews
            &&& updated.created_at == h.created_at
            &&& updated.updated_at == now
        }),
        r matches Err(e) ==> e.0 == 404 && e.1@ == "Hotel not found"@,
{
    match hotel {
        Some(h) => Ok(apply_update(&h, request, now)),
        None => Err((404, String::from_str("Hotel not found"))),
    }
}

/// `DELETE /hotels/{id}`: 204 when a row was deleted, 404 when the id
/// matched none — never 204 for a miss.
pub fn delete_hotel(rows_affected: u64) -> (r: Result<u16, (u16, String)>)
    ensures
        r is Ok <==> rows_affected > 0,
        r matches Ok(status) ==> status == 204,
        r matches Err(e) ==> e.0 == 404 && e.1@ == "Hotel not found"@,
{
    if rows_affected == 0 {
        Err((404, String::from_str("Hotel not found")))
    } else {
        Ok(204)
    }
}

} // verus!
