//! Native-shell logic for a webview-hosting desktop/mobile application.
//!
//! The shell around this library wires a GUI host runtime: it registers
//! plugins, opens webviews and calls into a prebuilt proxy engine. The parts
//! of that work that compute on plain values live here, verified: the
//! key-value store behind the bookmark/history commands, the navigation
//! policy and webview planning of the in-app browser, the injected chrome
//! scripts, the argument checks for the `pipy_main` entry point, and RSA
//! private-key generation in PEM form.

pub mod browser;
pub mod chrome;
pub mod keys;
pub mod models;
pub mod pipy;
pub mod store;
pub mod text;
