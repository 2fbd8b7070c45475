pub mod adb;
pub mod appify;
pub mod backend;
pub mod badging;
pub mod config;
pub mod control;
pub mod ctl;
pub mod decode;
pub mod emulator;
pub mod encode;
pub mod error;
pub mod fixed;
pub mod hardware;
pub mod host;
pub mod icons;
pub mod input;
pub mod ipc;
pub mod json;
pub mod keymap;
pub mod library;
pub mod media;
pub mod model;
pub mod nal;
pub mod number;
pub mod pane;
pub mod runtimed;
pub mod scrcpy;
pub mod session;
pub mod shell;
pub mod step;
pub mod subprocess;
pub mod surface;
pub mod text;
pub mod ui;
pub mod uninstall;
pub mod waydroid;
pub mod wire;
pub mod wizard;
