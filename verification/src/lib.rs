pub mod cache;
pub mod de;
pub mod http;
pub mod laws;
pub mod model;
pub mod record;
pub mod record_de;
pub mod record_ser;
pub mod rfc3339;
pub mod ser;
pub mod store;
pub mod text;
pub mod wire;
