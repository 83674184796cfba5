//! Core logic of a small embedded web server that toggles a single
//! digital output (an LED) in response to HTTP requests.
//!
//! The library holds the parts worth reasoning about: the output
//! controller with its atomic toggle commit, the request router with its
//! two fixed routes, and the static response pages. The platform layer
//! (WiFi bring-up, the HTTP transport, the display, the pin driver)
//! performs the actual I/O and feeds plain values in and out.

pub mod html;
pub mod model;
pub mod output;
pub mod router;
