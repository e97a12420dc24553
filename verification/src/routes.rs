//! The pure cores of the HTTP handlers: every function here takes the plain
//! values a handler has already read (a parsed body, a row fetched from the
//! store, the clock) and returns the status code, body fields and error
//! message the handler must answer with.

pub mod health;
pub mod hotels;
pub mod users;
