//! Core logic of a tethered-camera flight controller: winch motion planning,
//! gimbal tracking and limiting, the gimbal wire protocol, configuration
//! merging, telemetry batching and client authentication.

pub mod auth;
pub mod config;
pub mod controller;
pub mod gimbal_control;
pub mod gimbal_framing;
pub mod gimbal_poller;
pub mod gimbal_protocol;
pub mod gimbal_util;
pub mod led;
pub mod manual;
pub mod merge;
pub mod message;
pub mod rect;
pub mod scheduler;
pub mod session;
pub mod state;
pub mod units;
pub mod velocity;
pub mod winch;
