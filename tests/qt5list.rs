use qt_bridge::qt5list::{qt5list_bool, qt5list_u16, qt5list_u8};

#[test]
fn qt5list_u8_clone_default_drop() {
    let mut l = qt5list_u8::default();
    assert_eq!(l.len(), 0);
    l.append(7);
    l.append(9);
    let mut c = qt5list_u8::clone(&l);
    assert_eq!(c.len(), 2);
    qt5list_u8::drop(&mut c);
    assert_eq!(c.len(), 0);
    assert_eq!(l.len(), 2);
}

#[test]
fn qt5list_u16_clone_default_drop() {
    let mut l = qt5list_u16::default();
    l.append(500);
    let mut c = qt5list_u16::clone(&l);
    assert_eq!(c.len(), 1);
    qt5list_u16::drop(&mut c);
    assert_eq!(c.len(), 0);
    assert_eq!(l.len(), 1);
}

#[test]
fn qt5list_bool_clone_default_drop() {
    let mut l = qt5list_bool::default();
    l.append(true);
    l.append(false);
    l.append(true);
    let mut c = qt5list_bool::clone(&l);
    assert_eq!(c.len(), 3);
    qt5list_bool::drop(&mut c);
    assert_eq!(c.len(), 0);
    assert_eq!(l.len(), 3);
}
