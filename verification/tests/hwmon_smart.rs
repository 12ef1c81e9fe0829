use simon::hwmon::smart::{descriptor_fits, descriptor_model_text, drive_label, smart_temperature};

fn smart_answer(entries: &[(u8, u8)]) -> Vec<u8> {
    let mut data = vec![0u8; 32 + 512];
    for (i, (id, raw)) in entries.iter().enumerate() {
        let off = 34 + i * 12;
        data[off] = *id;
        data[off + 5] = *raw;
    }
    data
}

#[test]
fn smart_temperature_attribute_found() {
    let data = smart_answer(&[(1, 0), (9, 77), (194, 38)]);
    assert_eq!(smart_temperature(&data, 544), Some(38));
    let airflow = smart_answer(&[(190, 31)]);
    assert_eq!(smart_temperature(&airflow, 544), Some(31));
    let alternate = smart_answer(&[(5, 1), (231, 45)]);
    assert_eq!(smart_temperature(&alternate, 544), Some(45));
}

#[test]
fn smart_temperature_out_of_range_skipped() {
    // 0 and 100 or above are not taken as temperatures; a later entry is.
    let data = smart_answer(&[(194, 0), (190, 120), (231, 52)]);
    assert_eq!(smart_temperature(&data, 544), Some(52));
    let none = smart_answer(&[(194, 100)]);
    assert_eq!(smart_temperature(&none, 544), None);
}

#[test]
fn smart_temperature_short_answer() {
    let data = smart_answer(&[(194, 38)]);
    assert_eq!(smart_temperature(&data, 47), None);
    // The table is only read as far as whole entries fit.
    let short: Vec<u8> = data[..40].to_vec();
    assert_eq!(smart_temperature(&short, 544), None);
}

#[test]
fn drive_labels() {
    assert_eq!(drive_label(Some("Samsung SSD 980".to_string()), 0), "Samsung SSD 980");
    assert_eq!(drive_label(None, 3), "Drive 3");
}

fn descriptor(offset: u32, product: &[u8]) -> Vec<u8> {
    let mut b = vec![0u8; 1024];
    b[36..40].copy_from_slice(&offset.to_le_bytes());
    let o = offset as usize;
    b[o..o + product.len()].copy_from_slice(product);
    b
}

#[test]
fn descriptor_product_id() {
    let b = descriptor(100, b"  WDC WD10EZEX  ");
    assert!(descriptor_fits(&b, 200));
    assert_eq!(descriptor_model_text(&b, 200), Some("WDC WD10EZEX".to_string()));
    assert_eq!(descriptor_model_text(&b, 39), None);
    let blank = descriptor(100, b"   ");
    assert_eq!(descriptor_model_text(&blank, 200), None);
    let outside = descriptor(0, b"");
    assert_eq!(descriptor_model_text(&outside, 200), None);
}

#[test]
fn descriptor_without_terminator() {
    // No 0 byte after the offset: 40 bytes are taken, which must fit.
    let mut b = vec![1u8; 1024];
    b[36..40].copy_from_slice(&1000u32.to_le_bytes());
    assert!(!descriptor_fits(&b, 200));
    b[36..40].copy_from_slice(&900u32.to_le_bytes());
    for x in b[900..940].iter_mut() {
        *x = b'A';
    }
    assert!(descriptor_fits(&b, 200));
    assert_eq!(descriptor_model_text(&b, 200), Some("A".repeat(40)));
}
