pub mod headers;
pub mod method;
pub mod request;
pub mod response;
pub mod scan;
pub mod status;
