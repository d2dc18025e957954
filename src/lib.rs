//! Verified core of a desktop command bridge: request planning, response
//! handling and local storage naming for a user-management HTTP API.

pub mod config;
pub mod model;
pub mod request;
pub mod response;
pub mod status;
pub mod storage;
pub mod text;

pub use config::{get_base_url, BridgeConfig, DEFAULT_TIMEOUT_SECONDS};
pub use model::{ApiResponse, LoginRequest, User};
pub use request::{build_request, method_for, Body, Command, Header, HttpRequest, Method, Operation};
pub use response::{after_decode, after_send, delete_outcome, server_status, network_error,
    notification_error, parse_error, status_error, SendOutcome};
pub use status::is_success_status;
pub use storage::{
    create_dir_error, data_dir_error, load_result, storage_file_name, write_error, ReadOutcome,
    STORAGE_DIR,
};
pub use text::{decimal_text, int_text};
