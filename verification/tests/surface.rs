use rui::surface::Surface;

#[test]
fn new_surface_is_black_and_has_one_pixel_per_coordinate() {
    let s = Surface::new(0x1000, 4, 3);
    assert_eq!(s.base(), 0x1000);
    assert_eq!(s.width(), 4);
    assert_eq!(s.height(), 3);
    assert_eq!(s.pixels().len(), 12);
    assert!(s.pixels().iter().all(|&p| p == 0));
    assert!(s.is_valid());
}

#[test]
fn surface_without_base_or_size_is_not_valid() {
    assert!(!Surface::new(0, 4, 3).is_valid());
    assert!(!Surface::new(0x1000, 0, 3).is_valid());
    assert!(!Surface::new(0x1000, 4, 0).is_valid());
    assert_eq!(Surface::new(0, 0, 0).pixels().len(), 0);
}

#[test]
fn put_writes_at_row_major_offset() {
    let mut s = Surface::new(0x1000, 4, 3);
    assert!(s.put(1, 2, 0xABCDEF));
    assert_eq!(s.pixels()[2 * 4 + 1], 0xABCDEF);
    assert_eq!(s.get(1, 2), Some(0xABCDEF));
    let changed = s.pixels().iter().filter(|&&p| p != 0).count();
    assert_eq!(changed, 1);
}

#[test]
fn put_off_the_surface_is_dropped() {
    let mut s = Surface::new(0x1000, 4, 3);
    assert!(!s.put(4, 0, 1));
    assert!(!s.put(0, 3, 1));
    assert!(!s.put(4, 3, 1));
    assert!(!s.put(u16::MAX, u16::MAX, 1));
    assert!(s.pixels().iter().all(|&p| p == 0));
}

#[test]
fn put_on_the_last_coordinate_is_written() {
    let mut s = Surface::new(0x1000, 4, 3);
    assert!(s.put(3, 2, 7));
    assert_eq!(s.pixels()[11], 7);
}

#[test]
fn get_off_the_surface_is_nothing() {
    let s = Surface::new(0x1000, 4, 3);
    assert_eq!(s.get(4, 0), None);
    assert_eq!(s.get(0, 3), None);
    assert_eq!(s.get(3, 2), Some(0));
}

#[test]
fn empty_surface_takes_no_write() {
    let mut s = Surface::new(0, 0, 0);
    assert!(!s.put(0, 0, 1));
    assert_eq!(s.get(0, 0), None);
}
