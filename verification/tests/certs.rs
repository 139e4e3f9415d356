use precios_carburantes::certs::{certificate_common_name, is_der_file_name};

const ALICE_DER: &[u8] = &[
    0x30, 0x82, 0x02, 0x3c, 0x30, 0x82, 0x01, 0xa5, 0xa0, 0x03, 0x02, 0x01, 0x02, 0x02, 0x14, 0x20,
    0xcb, 0xb9, 0xc1, 0xd1, 0x30, 0xcd, 0xfb, 0x4f, 0xd8, 0x5d, 0x39, 0xfa, 0x35, 0xb0, 0x3a, 0x27,
    0x10, 0x05, 0x35, 0x30, 0x0d, 0x06, 0x09, 0x2a, 0x86, 0x48, 0x86, 0xf7, 0x0d, 0x01, 0x01, 0x0b,
    0x05, 0x00, 0x30, 0x30, 0x31, 0x0b, 0x30, 0x09, 0x06, 0x03, 0x55, 0x04, 0x06, 0x13, 0x02, 0x45,
    0x53, 0x31, 0x11, 0x30, 0x0f, 0x06, 0x03, 0x55, 0x04, 0x0a, 0x0c, 0x08, 0x54, 0x65, 0x73, 0x74,
    0x20, 0x4f, 0x72, 0x67, 0x31, 0x0e, 0x30, 0x0c, 0x06, 0x03, 0x55, 0x04, 0x03, 0x0c, 0x05, 0x61,
    0x6c, 0x69, 0x63, 0x65, 0x30, 0x1e, 0x17, 0x0d, 0x32, 0x36, 0x31, 0x31, 0x31, 0x38, 0x31, 0x33,
    0x31, 0x34, 0x35, 0x36, 0x5a, 0x17, 0x0d, 0x32, 0x36, 0x31, 0x31, 0x31, 0x39, 0x31, 0x33, 0x31,
    0x34, 0x35, 0x36, 0x5a, 0x30, 0x30, 0x31, 0x0b, 0x30, 0x09, 0x06, 0x03, 0x55, 0x04, 0x06, 0x13,
    0x02, 0x45, 0x53, 0x31, 0x11, 0x30, 0x0f, 0x06, 0x03, 0x55, 0x04, 0x0a, 0x0c, 0x08, 0x54, 0x65,
    0x73, 0x74, 0x20, 0x4f, 0x72, 0x67, 0x31, 0x0e, 0x30, 0x0c, 0x06, 0x03, 0x55, 0x04, 0x03, 0x0c,
    0x05, 0x61, 0x6c, 0x69, 0x63, 0x65, 0x30, 0x81, 0x9f, 0x30, 0x0d, 0x06, 0x09, 0x2a, 0x86, 0x48,
    0x86, 0xf7, 0x0d, 0x01, 0x01, 0x01, 0x05, 0x00, 0x03, 0x81, 0x8d, 0x00, 0x30, 0x81, 0x89, 0x02,
    0x81, 0x81, 0x00, 0xc8, 0xe9, 0xb2, 0x62, 0x27, 0x4e, 0x89, 0x98, 0x81, 0xb5, 0xdb, 0x0b, 0x79,
    0x6b, 0x0f, 0x87, 0xf6, 0x25, 0x87, 0xc8, 0x7c, 0x7f, 0x9b, 0xfd, 0x02, 0x28, 0x5b, 0x58, 0xd9,
    0xd6, 0xb4, 0xee, 0xb9, 0xb9, 0x9e, 0x9a, 0x76, 0x26, 0xdc, 0x21, 0xc1, 0x94, 0x06, 0x79, 0xb2,
    0xf8, 0x02, 0xf0, 0x51, 0xd7, 0xde, 0x04, 0x5c, 0x34, 0x0c, 0x5b, 0x20, 0x9f, 0x66, 0x4d, 0x33,
    0x58, 0x51, 0x6b, 0x5a, 0x0a, 0x63, 0x2d, 0xf5, 0xc8, 0x55, 0xf0, 0x83, 0x2e, 0x68, 0x1c, 0x4d,
    0x2a, 0xb0, 0x1b, 0x10, 0x48, 0xc3, 0x4d, 0xc6, 0x4f, 0xe3, 0x0e, 0xc6, 0xc3, 0x00, 0xa5, 0x45,
    0x20, 0x9b, 0xf6, 0x9a, 0xa0, 0x6d, 0xe5, 0x70, 0x50, 0x93, 0xd9, 0x12, 0xa5, 0xe2, 0x4a, 0x72,
    0xf9, 0x0c, 0x51, 0x67, 0x75, 0x60, 0xff, 0x4e, 0x08, 0x74, 0x3c, 0xf9, 0x3b, 0x54, 0x43, 0x72,
    0xb0, 0x2e, 0x99, 0x02, 0x03, 0x01, 0x00, 0x01, 0xa3, 0x53, 0x30, 0x51, 0x30, 0x1d, 0x06, 0x03,
    0x55, 0x1d, 0x0e, 0x04, 0x16, 0x04, 0x14, 0x52, 0xbf, 0x92, 0x55, 0xee, 0x28, 0x32, 0xd7, 0x34,
    0xdc, 0xb3, 0xcd, 0x81, 0x2f, 0xb3, 0x6e, 0xeb, 0xd3, 0x7b, 0x44, 0x30, 0x1f, 0x06, 0x03, 0x55,
    0x1d, 0x23, 0x04, 0x18, 0x30, 0x16, 0x80, 0x14, 0x52, 0xbf, 0x92, 0x55, 0xee, 0x28, 0x32, 0xd7,
    0x34, 0xdc, 0xb3, 0xcd, 0x81, 0x2f, 0xb3, 0x6e, 0xeb, 0xd3, 0x7b, 0x44, 0x30, 0x0f, 0x06, 0x03,
    0x55, 0x1d, 0x13, 0x01, 0x01, 0xff, 0x04, 0x05, 0x30, 0x03, 0x01, 0x01, 0xff, 0x30, 0x0d, 0x06,
    0x09, 0x2a, 0x86, 0x48, 0x86, 0xf7, 0x0d, 0x01, 0x01, 0x0b, 0x05, 0x00, 0x03, 0x81, 0x81, 0x00,
    0x48, 0x9b, 0x87, 0xa0, 0xf5, 0xd2, 0xb9, 0xaa, 0x0c, 0x77, 0x25, 0xf7, 0x3a, 0x74, 0x88, 0x57,
    0xd7, 0x5d, 0xee, 0xc3, 0xe9, 0xba, 0x4c, 0x1f, 0x44, 0xe9, 0x5a, 0x78, 0xb2, 0x96, 0x41, 0xc8,
    0xb3, 0x0b, 0xdf, 0x34, 0xa6, 0x9a, 0x8c, 0xf1, 0x0d, 0x4f, 0x2a, 0xd0, 0x46, 0x99, 0x8c, 0xa3,
    0xa7, 0x6e, 0xb8, 0x02, 0x1d, 0x26, 0xee, 0x9a, 0x3d, 0xfe, 0xbb, 0xf2, 0xd2, 0xe2, 0xe3, 0xec,
    0x08, 0x87, 0xc7, 0x37, 0x26, 0xfb, 0xf8, 0x7c, 0xd0, 0xc5, 0x11, 0x8f, 0x61, 0xc9, 0x18, 0xe5,
    0xa9, 0x3c, 0xe7, 0x6f, 0x4c, 0x09, 0xef, 0xce, 0x78, 0x5d, 0x37, 0x88, 0x96, 0x6f, 0x1d, 0xf5,
    0xd5, 0xa3, 0xe2, 0xf2, 0x7b, 0xb7, 0x32, 0xc1, 0x50, 0xa7, 0x67, 0x6f, 0x6d, 0x5e, 0xa8, 0xe1,
    0x31, 0x56, 0x1b, 0x8c, 0xe4, 0xb5, 0x7a, 0x7a, 0x1c, 0x27, 0xce, 0xc6, 0x3a, 0xe1, 0xc0, 0x7e,
];

// The same certificate with the subject's common name type written with a
// non-minimal arc (55 04 80 03): not the common name identifier.
const LONG_OID_DER: &[u8] = &[
    0x30, 0x82, 0x02, 0x3d, 0x30, 0x82, 0x01, 0xa6, 0xa0, 0x03, 0x02, 0x01, 0x02, 0x02, 0x14, 0x20,
    0xcb, 0xb9, 0xc1, 0xd1, 0x30, 0xcd, 0xfb, 0x4f, 0xd8, 0x5d, 0x39, 0xfa, 0x35, 0xb0, 0x3a, 0x27,
    0x10, 0x05, 0x35, 0x30, 0x0d, 0x06, 0x09, 0x2a, 0x86, 0x48, 0x86, 0xf7, 0x0d, 0x01, 0x01, 0x0b,
    0x05, 0x00, 0x30, 0x30, 0x31, 0x0b, 0x30, 0x09, 0x06, 0x03, 0x55, 0x04, 0x06, 0x13, 0x02, 0x45,
    0x53, 0x31, 0x11, 0x30, 0x0f, 0x06, 0x03, 0x55, 0x04, 0x0a, 0x0c, 0x08, 0x54, 0x65, 0x73, 0x74,
    0x20, 0x4f, 0x72, 0x67, 0x31, 0x0e, 0x30, 0x0c, 0x06, 0x03, 0x55, 0x04, 0x03, 0x0c, 0x05, 0x61,
    0x6c, 0x69, 0x63, 0x65, 0x30, 0x1e, 0x17, 0x0d, 0x32, 0x36, 0x31, 0x31, 0x31, 0x38, 0x31, 0x33,
    0x31, 0x34, 0x35, 0x36, 0x5a, 0x17, 0x0d, 0x32, 0x36, 0x31, 0x31, 0x31, 0x39, 0x31, 0x33, 0x31,
    0x34, 0x35, 0x36, 0x5a, 0x30, 0x31, 0x31, 0x0b, 0x30, 0x09, 0x06, 0x03, 0x55, 0x04, 0x06, 0x13,
    0x02, 0x45, 0x53, 0x31, 0x11, 0x30, 0x0f, 0x06, 0x03, 0x55, 0x04, 0x0a, 0x0c, 0x08, 0x54, 0x65,
    0x73, 0x74, 0x20, 0x4f, 0x72, 0x67, 0x31, 0x0f, 0x30, 0x0d, 0x06, 0x04, 0x55, 0x04, 0x80, 0x03,
    0x0c, 0x05, 0x61, 0x6c, 0x69, 0x63, 0x65, 0x30, 0x81, 0x9f, 0x30, 0x0d, 0x06, 0x09, 0x2a, 0x86,
    0x48, 0x86, 0xf7, 0x0d, 0x01, 0x01, 0x01, 0x05, 0x00, 0x03, 0x81, 0x8d, 0x00, 0x30, 0x81, 0x89,
    0x02, 0x81, 0x81, 0x00, 0xc8, 0xe9, 0xb2, 0x62, 0x27, 0x4e, 0x89, 0x98, 0x81, 0xb5, 0xdb, 0x0b,
    0x79, 0x6b, 0x0f, 0x87, 0xf6, 0x25, 0x87, 0xc8, 0x7c, 0x7f, 0x9b, 0xfd, 0x02, 0x28, 0x5b, 0x58,
    0xd9, 0xd6, 0xb4, 0xee, 0xb9, 0xb9, 0x9e, 0x9a, 0x76, 0x26, 0xdc, 0x21, 0xc1, 0x94, 0x06, 0x79,
    0xb2, 0xf8, 0x02, 0xf0, 0x51, 0xd7, 0xde, 0x04, 0x5c, 0x34, 0x0c, 0x5b, 0x20, 0x9f, 0x66, 0x4d,
    0x33, 0x58, 0x51, 0x6b, 0x5a, 0x0a, 0x63, 0x2d, 0xf5, 0xc8, 0x55, 0xf0, 0x83, 0x2e, 0x68, 0x1c,
    0x4d, 0x2a, 0xb0, 0x1b, 0x10, 0x48, 0xc3, 0x4d, 0xc6, 0x4f, 0xe3, 0x0e, 0xc6, 0xc3, 0x00, 0xa5,
    0x45, 0x20, 0x9b, 0xf6, 0x9a, 0xa0, 0x6d, 0xe5, 0x70, 0x50, 0x93, 0xd9, 0x12, 0xa5, 0xe2, 0x4a,
    0x72, 0xf9, 0x0c, 0x51, 0x67, 0x75, 0x60, 0xff, 0x4e, 0x08, 0x74, 0x3c, 0xf9, 0x3b, 0x54, 0x43,
    0x72, 0xb0, 0x2e, 0x99, 0x02, 0x03, 0x01, 0x00, 0x01, 0xa3, 0x53, 0x30, 0x51, 0x30, 0x1d, 0x06,
    0x03, 0x55, 0x1d, 0x0e, 0x04, 0x16, 0x04, 0x14, 0x52, 0xbf, 0x92, 0x55, 0xee, 0x28, 0x32, 0xd7,
    0x34, 0xdc, 0xb3, 0xcd, 0x81, 0x2f, 0xb3, 0x6e, 0xeb, 0xd3, 0x7b, 0x44, 0x30, 0x1f, 0x06, 0x03,
    0x55, 0x1d, 0x23, 0x04, 0x18, 0x30, 0x16, 0x80, 0x14, 0x52, 0xbf, 0x92, 0x55, 0xee, 0x28, 0x32,
    0xd7, 0x34, 0xdc, 0xb3, 0xcd, 0x81, 0x2f, 0xb3, 0x6e, 0xeb, 0xd3, 0x7b, 0x44, 0x30, 0x0f, 0x06,
    0x03, 0x55, 0x1d, 0x13, 0x01, 0x01, 0xff, 0x04, 0x05, 0x30, 0x03, 0x01, 0x01, 0xff, 0x30, 0x0d,
    0x06, 0x09, 0x2a, 0x86, 0x48, 0x86, 0xf7, 0x0d, 0x01, 0x01, 0x0b, 0x05, 0x00, 0x03, 0x81, 0x81,
    0x00, 0x48, 0x9b, 0x87, 0xa0, 0xf5, 0xd2, 0xb9, 0xaa, 0x0c, 0x77, 0x25, 0xf7, 0x3a, 0x74, 0x88,
    0x57, 0xd7, 0x5d, 0xee, 0xc3, 0xe9, 0xba, 0x4c, 0x1f, 0x44, 0xe9, 0x5a, 0x78, 0xb2, 0x96, 0x41,
    0xc8, 0xb3, 0x0b, 0xdf, 0x34, 0xa6, 0x9a, 0x8c, 0xf1, 0x0d, 0x4f, 0x2a, 0xd0, 0x46, 0x99, 0x8c,
    0xa3, 0xa7, 0x6e, 0xb8, 0x02, 0x1d, 0x26, 0xee, 0x9a, 0x3d, 0xfe, 0xbb, 0xf2, 0xd2, 0xe2, 0xe3,
    0xec, 0x08, 0x87, 0xc7, 0x37, 0x26, 0xfb, 0xf8, 0x7c, 0xd0, 0xc5, 0x11, 0x8f, 0x61, 0xc9, 0x18,
    0xe5, 0xa9, 0x3c, 0xe7, 0x6f, 0x4c, 0x09, 0xef, 0xce, 0x78, 0x5d, 0x37, 0x88, 0x96, 0x6f, 0x1d,
    0xf5, 0xd5, 0xa3, 0xe2, 0xf2, 0x7b, 0xb7, 0x32, 0xc1, 0x50, 0xa7, 0x67, 0x6f, 0x6d, 0x5e, 0xa8,
    0xe1, 0x31, 0x56, 0x1b, 0x8c, 0xe4, 0xb5, 0x7a, 0x7a, 0x1c, 0x27, 0xce, 0xc6, 0x3a, 0xe1, 0xc0,
    0x7e,
];

#[test]
fn common_name_type_is_compared_as_encoded() {
    assert!(matches!(certificate_common_name(LONG_OID_DER), Ok(None)));
}

#[test]
fn common_name_of_generated_certificate() {
    let name = certificate_common_name(ALICE_DER);
    assert!(matches!(name, Ok(Some(ref n)) if n == "alice"));
}

#[test]
fn common_name_of_garbage_is_error() {
    assert!(certificate_common_name(&[1, 2, 3, 4]).is_err());
    assert!(certificate_common_name(&[]).is_err());
}

#[test]
fn der_file_names() {
    assert!(is_der_file_name("alice.der"));
    assert!(is_der_file_name(".der"));
    assert!(!is_der_file_name("alice.pem"));
    assert!(!is_der_file_name("der"));
    assert!(!is_der_file_name("alice.DER"));
    assert!(!is_der_file_name(""));
    assert!(is_der_file_name("ñandú.der"));
}
