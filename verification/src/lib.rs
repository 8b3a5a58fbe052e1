//! Verified core of a binding layer for Hikrobot MVS industrial cameras.
//!
//! The native SDK itself is reached through a C ABI by the companion application crate;
//! this library holds everything that can be decided on plain values: status codes and
//! error text, NUL-terminated string handling, decoding of the fixed-width records that
//! cross the ABI, numeric codes of the request enums, and the camera lifecycle rules.
//!
//! Modules: [`sdk`] (version, discovery, Action Command results), [`camera`] (lifecycle
//! and UserSet node writes), [`frame`] (frames, Chunk data, output formats), [`imaging`]
//! (encoding and transform requests), [`events`] (exceptions, camera events, network
//! statistics), [`params`] (GenICam values), [`error`] (errors and status checks),
//! [`strings`] (native text) and [`sys`] (the ABI records as plain values).

pub mod strings;
pub mod sys;
pub mod error;
pub mod sdk;
pub mod frame;
pub mod imaging;
pub mod events;
pub mod params;
pub mod camera;

pub use camera::{CameraOp, CameraState, NodeWrite, ShutdownStep};
pub use error::{check, cstring, Error, Result};
pub use events::{CameraEvent, ExceptionEvent, NetworkStats};
pub use frame::{empty_frame, ChunkMetadata, Frame, OutputFormat, OwnedFrame};
pub use imaging::{FlipDirection, ImageFormat, Rotation};
pub use params::IntValue;
pub use sdk::{ActionResult, DeviceInfo, Ipv4Address, SdkVersion, Transport};
pub use strings::text;
