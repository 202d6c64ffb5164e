use mlx9064x::driver::{decode_status, store_subpage, FrameTracker};
use mlx9064x::error::LibraryError;
use mlx9064x::register::Subpage;

#[test]
fn status_values() {
    assert_eq!(decode_status(0x0000), Ok(None));
    assert_eq!(decode_status(0x0001), Ok(None));
    assert_eq!(decode_status(0x0008), Ok(Some(Subpage::Zero)));
    assert_eq!(decode_status(0x0019), Ok(Some(Subpage::One)));
    assert_eq!(decode_status(0x000A), Err(LibraryError::Status(0x000A)));
    assert_eq!(decode_status(0x0007), Err(LibraryError::Status(0x0007)));
}

#[test]
fn two_subpage_image_needs_both() {
    let mut t = FrameTracker::new(true);
    assert!(!t.record(Subpage::Zero));
    assert!(!t.record(Subpage::Zero));
    assert!(t.record(Subpage::One));
    assert!(!t.record(Subpage::One));
    assert!(t.record(Subpage::Zero));
}

#[test]
fn one_subpage_image_completes_each_poll() {
    let mut t = FrameTracker::new(false);
    assert!(t.record(Subpage::One));
    assert!(t.record(Subpage::One));
    assert!(t.record(Subpage::Zero));
}

#[test]
fn wrong_buffer_length_is_refused() {
    let values = vec![1.0f32; 192];
    let mask = vec![true; 192];
    let failed = vec![false; 192];
    let mut short = vec![0.0f32; 191];
    let r = store_subpage(&mut short, &values, &mask, &failed, f32::NAN);
    assert!(matches!(r, Err(LibraryError::InvalidData(_))));
    assert!(short.iter().all(|v| *v == 0.0));
    let mut long = vec![0.0f32; 193];
    assert!(store_subpage(&mut long, &values, &mask, &failed, f32::NAN).is_err());
}

#[test]
fn stores_subpage_values() {
    let values: Vec<f32> = (0..4).map(|i| i as f32 + 0.5).collect();
    let mask = vec![true, false, true, true];
    let failed = vec![false, false, true, false];
    let mut out = vec![9.0f32; 4];
    store_subpage(&mut out, &values, &mask, &failed, f32::NAN).unwrap();
    assert_eq!(out[0], 0.5);
    assert_eq!(out[1], 9.0);
    assert!(out[2].is_nan());
    assert_eq!(out[3], 3.5);
}
