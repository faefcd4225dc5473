use btc_primitives::{classify_script, read_pushdata, ScriptType};

#[test]
fn classify_p2pkh_bare_prefix() {
    assert_eq!(classify_script(&[0x76, 0xa9, 0x14]), ScriptType::P2PKH);
}

#[test]
fn classify_p2pkh_with_tail() {
    assert_eq!(classify_script(&[0x76, 0xa9, 0x14, 0x01, 0x02]), ScriptType::P2PKH);
}

#[test]
fn classify_p2wpkh() {
    assert_eq!(classify_script(&[0x00, 0x14]), ScriptType::P2WPKH);
    assert_eq!(classify_script(&[0x00, 0x14, 0xaa, 0xbb, 0xcc]), ScriptType::P2WPKH);
}

#[test]
fn classify_empty_is_unknown() {
    assert_eq!(classify_script(&[]), ScriptType::Unknown);
}

#[test]
fn classify_short_prefix_is_unknown() {
    assert_eq!(classify_script(&[0x76, 0xa9]), ScriptType::Unknown);
    assert_eq!(classify_script(&[0x76]), ScriptType::Unknown);
    assert_eq!(classify_script(&[0x00]), ScriptType::Unknown);
}

#[test]
fn classify_other_scripts_are_unknown() {
    assert_eq!(classify_script(&[0x76, 0xa9, 0x15]), ScriptType::Unknown);
    assert_eq!(classify_script(&[0x76, 0xa8, 0x14]), ScriptType::Unknown);
    assert_eq!(classify_script(&[0x00, 0x15]), ScriptType::Unknown);
    assert_eq!(classify_script(&[0x14, 0x00]), ScriptType::Unknown);
    assert_eq!(classify_script(&[0xa9, 0x14, 0x00]), ScriptType::Unknown);
}

#[test]
fn classify_full_standard_scripts() {
    let mut p2pkh = vec![0x76, 0xa9, 0x14];
    p2pkh.extend_from_slice(&[0x11; 20]);
    p2pkh.extend_from_slice(&[0x88, 0xac]);
    assert_eq!(classify_script(&p2pkh), ScriptType::P2PKH);

    let mut p2wpkh = vec![0x00, 0x14];
    p2wpkh.extend_from_slice(&[0x22; 20]);
    assert_eq!(classify_script(&p2wpkh), ScriptType::P2WPKH);
}

#[test]
fn classify_twice_gives_the_same_variant() {
    let scripts: Vec<Vec<u8>> = vec![
        vec![],
        vec![0x76, 0xa9],
        vec![0x76, 0xa9, 0x14, 0x00],
        vec![0x00, 0x14, 0x01],
        vec![0xff, 0xff, 0xff],
    ];
    for script in scripts {
        assert_eq!(classify_script(&script), classify_script(&script));
    }
}

#[test]
fn read_pushdata_exact_payload() {
    assert_eq!(read_pushdata(&[0x00, 0x02, 0xAA, 0xBB]), &[0xAA, 0xBB]);
}

#[test]
fn read_pushdata_declared_length_exceeds_buffer() {
    assert_eq!(read_pushdata(&[0x00, 0x05, 0xAA, 0xBB]), &[] as &[u8]);
}

#[test]
fn read_pushdata_too_short_for_length_byte() {
    assert_eq!(read_pushdata(&[0x00]), &[] as &[u8]);
    assert_eq!(read_pushdata(&[]), &[] as &[u8]);
}

#[test]
fn read_pushdata_zero_length() {
    assert_eq!(read_pushdata(&[0x00, 0x00]), &[] as &[u8]);
    assert_eq!(read_pushdata(&[0x00, 0x00, 0xAA]), &[] as &[u8]);
}

#[test]
fn read_pushdata_ignores_what_follows_the_payload() {
    assert_eq!(read_pushdata(&[0x00, 0x01, 0xAA, 0xBB, 0xCC]), &[0xAA]);
}

#[test]
fn read_pushdata_one_byte_short_is_empty() {
    assert_eq!(read_pushdata(&[0x00, 0x03, 0xAA, 0xBB]), &[] as &[u8]);
}

#[test]
fn read_pushdata_longest_payload() {
    let mut script = vec![0x00, 0xff];
    script.extend((0..255u8).map(|i| i));
    assert_eq!(read_pushdata(&script), &script[2..]);
    script.pop();
    assert_eq!(read_pushdata(&script), &[] as &[u8]);
}

#[test]
fn read_pushdata_borrows_from_the_script() {
    let script = [0x00u8, 0x14, 1, 2, 3, 4, 5, 6, 7, 8, 9, 10, 11, 12, 13, 14, 15, 16, 17, 18, 19, 20];
    let payload = read_pushdata(&script);
    assert_eq!(payload.len(), 20);
    assert_eq!(payload.as_ptr(), script[2..].as_ptr());
}

#[test]
fn classify_then_read_pushdata() {
    let mut script = vec![0x00, 0x14];
    script.extend_from_slice(&[0x5a; 20]);
    assert_eq!(classify_script(&script), ScriptType::P2WPKH);
    assert_eq!(read_pushdata(&script), &[0x5a; 20]);
}
