//! A typed client binding for the VK web API: the envelope of each response,
//! the error taxonomy, the parameter bag of a call, and typed decoding of
//! response objects.

pub mod error;
pub mod json;
pub mod envelope;
pub mod objects;
pub mod params;
pub mod methods;
