pub mod event_loop;
pub mod exit_status;
pub mod join;
pub mod robust_service;
pub mod runtime;
pub mod service_handle;
pub mod service_state;
pub mod task_handle;
pub mod websocket;
