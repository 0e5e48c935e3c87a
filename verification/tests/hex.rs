use generic_array::GenericArray;

#[test]
fn short_lower_hex() {
    let ar = GenericArray::<u8, 3>::from_array([10, 20, 30]);
    assert_eq!(ar.lower_hex(), "0a141e");
}

#[test]
fn short_upper_hex() {
    let ar = GenericArray::<u8, 3>::from_array([30, 20, 10]);
    assert_eq!(ar.upper_hex(), "1E140A");
}

#[test]
fn long_lower_hex() {
    let ar = GenericArray::<u8, 2048>::default();
    assert_eq!(ar.lower_hex(), std::str::from_utf8(&[b'0'; 4096]).unwrap());
}

#[test]
fn long_upper_hex() {
    let ar = GenericArray::<u8, 2048>::default();
    assert_eq!(ar.upper_hex(), std::str::from_utf8(&[b'0'; 4096]).unwrap());
}

#[test]
fn large_distinct_hex() {
    let mut bytes = [0u8; 32];
    for i in 0..32 {
        bytes[i] = (i as u8) * 8 + 7;
    }
    let ar = GenericArray::<u8, 32>::from_array(bytes);
    assert_eq!(
        ar.lower_hex(),
        "070f171f272f373f474f575f676f777f878f979fa7afb7bfc7cfd7dfe7eff7ff"
    );
    assert_eq!(
        ar.upper_hex(),
        "070F171F272F373F474F575F676F777F878F979FA7AFB7BFC7CFD7DFE7EFF7FF"
    );
}

#[test]
fn hex_precision() {
    let ar = GenericArray::<u8, 4>::from_array([0xab, 0xcd, 0xef, 0x01]);
    assert_eq!(ar.lower_hex_precision(5), "abcde");
    assert_eq!(ar.upper_hex_precision(3), "ABC");
    assert_eq!(ar.lower_hex_precision(100), "abcdef01");
    assert_eq!(ar.upper_hex_precision(0), "");
}
