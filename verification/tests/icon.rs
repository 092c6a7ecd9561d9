use rabbit::icon::{load_app_icon, load_icon_from_bytes, make_fallback_icon, rgba_to_argb};

fn tiny_ico() -> Vec<u8> {
    let mut v: Vec<u8> = vec![0, 0, 1, 0, 1, 0];
    v.extend_from_slice(&[1, 1, 0, 0, 1, 0, 32, 0]);
    v.extend_from_slice(&48u32.to_le_bytes());
    v.extend_from_slice(&22u32.to_le_bytes());
    v.extend_from_slice(&40u32.to_le_bytes());
    v.extend_from_slice(&1i32.to_le_bytes());
    v.extend_from_slice(&2i32.to_le_bytes());
    v.extend_from_slice(&1u16.to_le_bytes());
    v.extend_from_slice(&32u16.to_le_bytes());
    v.extend_from_slice(&[0u8; 24]);
    v.extend_from_slice(&[0x10, 0x20, 0x30, 0x40]);
    v.extend_from_slice(&[0, 0, 0, 0]);
    v
}

#[test]
fn decodes_an_icon_and_reorders_pixels() {
    let bytes = tiny_ico();
    let icon = load_app_icon(&bytes);
    assert_eq!((icon.width, icon.height), (1, 1));
    assert_eq!(icon.rgba, vec![0x30, 0x20, 0x10, 0x40]);
    let argb = load_icon_from_bytes(&bytes).unwrap();
    assert_eq!((argb.width, argb.height), (1, 1));
    assert_eq!(argb.data, vec![0x40, 0x30, 0x20, 0x10]);
}

#[test]
fn garbage_does_not_decode() {
    assert!(load_icon_from_bytes(&[1, 2, 3, 4]).is_none());
}

#[test]
fn argb_rotation() {
    let mut d = vec![1, 2, 3, 4, 5, 6, 7, 8, 9];
    rgba_to_argb(&mut d);
    assert_eq!(d, vec![4, 1, 2, 3, 8, 5, 6, 7, 9]);
}

#[test]
fn fallback_icon_is_a_blue_disc() {
    let icon = make_fallback_icon();
    assert_eq!((icon.width, icon.height), (32, 32));
    assert_eq!(icon.data.len(), 32 * 32 * 4);
    let px = |x: usize, y: usize| icon.data[(y * 32 + x) * 4..(y * 32 + x) * 4 + 4].to_vec();
    assert_eq!(px(16, 16), vec![255, 0x33, 0x99, 0xFF]);
    assert_eq!(px(0, 0), vec![0, 0, 0, 0]);
    assert_eq!(px(30, 16), vec![255, 0x33, 0x99, 0xFF]);
    assert_eq!(px(31, 16), vec![0, 0, 0, 0]);
}
