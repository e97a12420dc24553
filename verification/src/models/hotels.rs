use vstd::prelude::*;

verus! {

/// A hotel row as the relational store holds it. Timestamps are unix
/// seconds; the rating, when present, is kept in hundredths of a star so
/// that it stays an integer.
#[derive(Clone, Debug)]
pub struct Hotel {
    pub id: i32,
    pub name: String,
    pub description: Option<String>,
    pub address: String,
    pub city: String,
    pub country: String,
    pub rating: Option<i64>,
    pub total_reviews: Option<i32>,
    pub created_at: i64,
    pub updated_at: i64,
}

/// Body of `POST /hotels`.
#[derive(Clone, Debug)]
pub struct CreateHotelRequest {
    pub name: String,
    pub description: Option<String>,
    pub address: String,
    pub city: String,
    pub country: String,
}

/// Body of `PUT /hotels/{id}`: a field that is present overwrites, a field
/// that is absent preserves the existing value.
#[derive(Clone, Debug)]
pub struct UpdateHotelRequest {
    pub name: Option<String>,
    pub description: Option<String>,
    pub address: Option<String>,
    pub city: Option<String>,
    pub country: Option<String>,
}

/// The public projection of a hotel: the timestamps never leave the service.
#[derive(Clone, Debug)]
pub struct HotelResponse {
    pub id: i32,
    pub name: String,
    pub description: Option<String>,
    pub address: String,
    pub city: String,
    pub country: String,
    pub rating: Option<i64>,
    pub total_reviews: Option<i32>,
}

impl From<Hotel> for HotelResponse {
    fn from(hotel: Hotel) -> (r: Self) {
        HotelResponse {
            id: hotel.id,
            name: hotel.name,
            description: hotel.description,
            address: hotel.address,
            city: hotel.city,
            country: hotel.country,
            rating: hotel.rating,
            total_reviews: hotel.total_reviews,
        }
    }
}

impl vstd::std_specs::convert::FromSpecImpl<Hotel> for HotelResponse {
    open spec fn obeys_from_spec() -> bool {
        true
    }

    open spec fn from_spec(hotel: Hotel) -> Self {
        HotelResponse {
            id: hotel.id,
            name: hotel.name,
            description: hotel.description,
            address: hotel.address,
            city: hotel.city,
            country: hotel.country,
            rating: hotel.rating,
            total_reviews: hotel.total_reviews,
        }
    }
}

} // verus!
