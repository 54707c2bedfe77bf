//! The computations behind a star finder: converting an observation time to
//! UTC, turning it into a UNIX timestamp, reading the integer fields of the
//! observation form, the form's own state, the order and outcome of the
//! steps of a star look-up, and cutting a star catalogue row into the fields
//! shown for a star.
pub mod calendar;
pub mod epoch;
pub mod fields;
pub mod form;
pub mod lookup;
pub mod stars;
