//! The logic of a remote-desktop host that shares one physical console.
//!
//! Every rule of the host lives here: who may see the desktop and when, which
//! connection owns the display, how a desktop frame is fitted to a client, what
//! travels between the service and its console agent, how network-level
//! authentication is negotiated and which clients are remembered. The modules
//! hold no threads, sockets or files; a program around them performs the I/O.

pub mod access;
pub mod access_laws;
pub mod admin;
pub mod auth;
pub mod bitmap;
pub mod bridge;
pub mod canvas;
pub mod config;
pub mod console;
pub mod credssp;
pub mod display;
pub mod events;
pub mod frame;
pub mod host;
pub mod input;
pub mod layout;
pub mod negotiate;
pub mod nla;
pub mod platform;
pub mod preferences;
pub mod scaling;
pub mod scene;
pub mod scene_laws;
pub mod screen_laws;
pub mod service;
pub mod session;
pub mod sorted;
pub mod supervisor;
pub mod text;
pub mod touch;
pub mod trust;
pub mod trusted_clients;
pub mod updates;
pub mod wide;
pub mod windows;
pub mod wire;
