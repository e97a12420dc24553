//! Data carried between the handlers and the verified core: identity claims,
//! users, hotels, and the request/response bodies of the HTTP surface.

pub mod health;
pub mod hotels;
pub mod users;
