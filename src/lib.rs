//! Client for the exoplanet archive's table service.
//!
//! The library builds the query addresses of the service's tables, decides
//! what a finished HTTP exchange means (rows, a transport failure, a read
//! failure) and decodes the JSON that comes back. Performing the request itself
//! is left to the caller.
pub mod endpoint;
pub mod error;
pub mod json;
pub mod query;
pub mod response;
