use badge::save::{process_bssid, sector_image, Save, SaveError, BSSID_LEN, ERASE_SIZE};

#[test]
fn new_bssid_is_counted_once() {
    let mut save = Save::new();
    let a = [1, 2, 3, 4, 5, 6];
    process_bssid(a, &mut save.wifi_counted, &mut save.bssid);
    assert_eq!(save.wifi_counted, 1);
    assert_eq!(save.bssid_texts(), vec!["01:02:03:04:05:06".to_string()]);
    process_bssid(a, &mut save.wifi_counted, &mut save.bssid);
    assert_eq!(save.wifi_counted, 1);
    assert_eq!(save.bssid_texts().len(), 1);
    process_bssid([0xab, 9, 9, 9, 9, 0xff], &mut save.wifi_counted, &mut save.bssid);
    assert_eq!(save.wifi_counted, 2);
    assert_eq!(
        save.bssid_texts(),
        vec!["01:02:03:04:05:06".to_string(), "ab:09:09:09:09:ff".to_string()]
    );
}

#[test]
fn full_bssid_list_starts_over() {
    let texts: Vec<String> = (0..BSSID_LEN).map(|i| format!("{:017}", i)).collect();
    let mut save = Save::from_parts(5, &texts).unwrap();
    assert_eq!(save.bssid_texts(), texts);
    process_bssid([1, 1, 1, 1, 1, 1], &mut save.wifi_counted, &mut save.bssid);
    assert_eq!(save.wifi_counted, 6);
    assert!(save.bssid_texts().is_empty());
}

#[test]
fn count_stays_at_largest_value() {
    let mut save = Save::new();
    save.wifi_counted = u32::MAX;
    process_bssid([1, 2, 3, 4, 5, 6], &mut save.wifi_counted, &mut save.bssid);
    assert_eq!(save.wifi_counted, u32::MAX);
    assert_eq!(save.bssid_texts().len(), 1);
}

#[test]
fn from_parts_refuses_what_does_not_fit() {
    let too_long = vec!["0123456789abcdefgh".to_string()];
    assert!(Save::from_parts(0, &too_long).is_none());
    let not_ascii = vec!["é".to_string()];
    assert!(Save::from_parts(0, &not_ascii).is_none());
    let too_many: Vec<String> = (0..BSSID_LEN + 1).map(|i| format!("{}", i)).collect();
    assert!(Save::from_parts(0, &too_many).is_none());
    let ok = vec!["a".to_string(), "b".to_string()];
    let save = Save::from_parts(3, &ok).unwrap();
    assert_eq!(save.wifi_counted, 3);
    assert_eq!(save.bssid_texts(), ok);
}

#[test]
fn sector_image_pads_with_zeros() {
    let buf = sector_image(&[7, 8, 9]).unwrap();
    assert_eq!(buf.len(), ERASE_SIZE);
    assert_eq!(&buf[..3], &[7, 8, 9]);
    assert!(buf[3..].iter().all(|b| *b == 0));
}

#[test]
fn sector_image_refuses_oversized_record() {
    let big = vec![1u8; ERASE_SIZE + 1];
    assert_eq!(sector_image(&big), Err(SaveError::DataTooLarge));
    let exact = vec![1u8; ERASE_SIZE];
    assert_eq!(sector_image(&exact).unwrap(), exact);
}
