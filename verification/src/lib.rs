//! Verified core logic of the Lead Barry battery management firmware.
//!
//! The modules hold the decisions and computations of the firmware; the
//! hardware drivers, the async executors and the network stack stay outside.

pub mod config_server;
pub mod configuration;
pub mod fixed_point;
pub mod input;
pub mod led_controller;
pub mod main_logic;
pub mod message_layout;
pub mod optimization_demo;
pub mod screens;
pub mod startup;
pub mod status_layout;
pub mod sync_examples;
pub mod text;
pub mod timing;
pub mod ui_runner;
pub mod units;
pub mod vcp_sensors;
pub mod web_server;
