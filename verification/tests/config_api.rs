//! The configuration holder and the computed parts of the HTTP surface.

use coproc::config::{default_config_str, ConfigStore};
use coproc::frame::Frame;
use coproc::text::dec_string;
use coproc::web::{frame_headers, not_found_body};

#[test]
fn config_round_trip_is_byte_identical() {
    let mut store = ConfigStore::new();
    let doc = String::from("{\"fov_rad\":0.92,\"harris_k\":0.05}");
    store.set(doc.clone());
    assert_eq!(store.get().as_bytes(), doc.as_bytes());
    // Replacing again swaps the whole value.
    let doc2 = String::from("{}");
    store.set(doc2.clone());
    assert_eq!(store.get(), &doc2);
}

#[test]
fn reset_restores_fixed_defaults_regardless_of_prior_state() {
    let mut store = ConfigStore::new();
    assert_eq!(store.get(), default_config_str());
    store.set(String::from("{\"anything\":true}"));
    store.reset();
    assert_eq!(store.get(), default_config_str());
    store.reset();
    assert_eq!(store.get(), default_config_str());
}

#[test]
fn default_config_is_valid_json() {
    let v: serde_json::Value = serde_json::from_str(default_config_str()).unwrap();
    assert!(v.is_object());
}

#[test]
fn not_found_body_names_the_path() {
    assert_eq!(not_found_body("/api/nope"), "no such route: /api/nope");
    assert_eq!(not_found_body(""), "no such route: ");
}

#[test]
fn frame_headers_are_decimal() {
    let f = Frame::encode(320, 240, 1, vec![0u8; 320 * 240]).unwrap();
    let (w, h, s) = frame_headers(&f, 2);
    assert_eq!((w.as_str(), h.as_str(), s.as_str()), ("320", "240", "2"));
}

#[test]
fn decimal_rendering_is_exact() {
    assert_eq!(dec_string(0), "0");
    assert_eq!(dec_string(7), "7");
    assert_eq!(dec_string(1234567890), "1234567890");
    assert_eq!(dec_string(u64::MAX), "18446744073709551615");
}
