//! A minimal desktop-application shell: three user preferences (proxy
//! address, theme, autolaunch flag) persisted in a JSON-like key-value
//! store, a settings window that opens on demand, and a native menu whose
//! two fixed commands open that window or quit the process.
//!
//! The store file itself, the windows and the menu belong to a host GUI
//! runtime; this library holds every decision the shell makes: how the
//! stored values are read and defaulted into a settings record, which
//! fields of a save request are applied and which are ignored, and what
//! each menu identifier commands.

pub mod dispatch;
pub mod settings;
pub mod value;
