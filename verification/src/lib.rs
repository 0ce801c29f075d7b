pub mod ascii;
pub mod byte_array;
pub mod code_buffer;
pub mod config;
pub mod decimal;
pub mod enroll_request;
pub mod enroll_response;
pub mod enrollment_code;
pub mod errors;
pub mod hex_id;
pub mod json;
pub mod net;
pub mod pki;
pub mod pubkey;
pub mod routes;
pub mod state;
pub mod unlock_request;
