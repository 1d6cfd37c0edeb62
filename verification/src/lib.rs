//! Driver core for a Roccat Vulcan keyboard: per-key color modelling, the
//! packet layout sent to the LED device, decoding of raw key-press reports,
//! and the control-channel handshake state machine.
//!
//! Device discovery and the actual HID I/O live outside this crate; the types
//! and transition functions here are pure and fully specified.

pub mod buffer;
pub mod color;
pub mod error;
pub mod interface;
pub mod key_name;
pub mod keyboard;
pub mod keypress;
pub mod layout;
pub mod layout_fr_ch;
pub mod reports;

pub use buffer::BITE_PACKET_SIZE;
pub use buffer::BUFFER_SIZE_PACKETED;
pub use buffer::BUFFER_SIZE_RAW;
pub use buffer::ColorBuffer;
pub use buffer::KEY_PACKET_SIZE;
pub use buffer::NUMBER_KEY_LED_BUFFER;
pub use buffer::get_packeted_index_from_raw;
pub use color::Color;
pub use color::ColorRgb;
pub use color::ColorRgba;
pub use error::ErrorRoccatVulcanApi;
pub use interface::HidDeviceInfo;
pub use interface::HidInterfaceFilter;
pub use interface::KeyboardIntrefacesFilter;
pub use keyboard::CONTROL_READINESS_PROBE;
pub use keyboard::CONTROL_VERIFICATION_PROBE;
pub use keyboard::ControlerFeatureKind;
pub use keyboard::DiscoveryPlan;
pub use keyboard::Handshake;
pub use keyboard::HandshakeAction;
pub use keyboard::HandshakePhase;
pub use keyboard::MAX_READ_TIMEOUT_MILLIS;
pub use keyboard::MAX_WAIT_NANOS;
pub use keyboard::PROBE_BUFFER_LEN;
pub use keyboard::WAIT_FOR_CONTROL_MILLIS;
pub use keyboard::check_read_duration;
pub use keyboard::control_candidates;
pub use keyboard::discovery_plan;
pub use keyboard::feature_reports;
pub use keyboard::find_interface;
pub use keyboard::keyboard_present;
pub use keyboard::probe_accepts;
pub use keyboard::probe_request;
pub use keyboard::push_key_event;
pub use keyboard::read_step;
pub use key_name::KeyName;
pub use keypress::CAPS_LOCK_RAW_CODE;
pub use keypress::KeyCode;
pub use keypress::KeyPress;
pub use layout::KeyInfo;
pub use layout::KeyLight;
pub use layout::Layout;
pub use layout_fr_ch::LAYOUT_FR_CH_KEY_COUNT;
pub use layout_fr_ch::LayoutFrCh;
pub use layout_fr_ch::layout_info_fr_ch;
