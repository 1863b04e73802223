//! A desktop notification popup: duplicate suppression, frame geometry and
//! the lifecycle of the overlay surface that shows a notification.
pub mod config;
pub mod error;
pub mod frame;
pub mod notification;
pub mod session;
