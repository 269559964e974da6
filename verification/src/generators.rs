//! The encodings of the generators of G1 and G2: the two coordinates of the
//! point that the curve fixes for each group, least significant byte first,
//! with the flag of the sign of the second coordinate in the last byte.

use vstd::prelude::*;

verus! {

/// The canonical uncompressed encoding of the generator of G1.
pub const G1_GENERATOR_ENCODING: [u8; 190] = [
    0xb8, 0xff, 0x7b, 0x3a, 0xd9, 0xfb, 0xa1, 0xf7, 0xf3, 0xa1,
    0xa9, 0xef, 0x6f, 0x9a, 0x32, 0x23, 0x41, 0x4c, 0x2c, 0x44,
    0x9d, 0x3d, 0x8b, 0x5b, 0x89, 0x60, 0xda, 0xf7, 0xcb, 0x1a,
    0xd1, 0x66, 0x7e, 0x86, 0x9d, 0xcd, 0xe3, 0xce, 0x20, 0xf1,
    0x6d, 0x7b, 0xc5, 0xe3, 0xe5, 0x9c, 0x06, 0xdd, 0x5b, 0x1d,
    0x1f, 0x93, 0x1b, 0x77, 0x18, 0xe8, 0xc5, 0x5f, 0x0d, 0x0c,
    0x7d, 0x36, 0x09, 0xb4, 0xdc, 0xd1, 0x7f, 0x99, 0xc4, 0x84,
    0xe8, 0x37, 0x24, 0x1c, 0x13, 0x88, 0x80, 0x33, 0x30, 0x4f,
    0x28, 0x02, 0x10, 0xfb, 0x2c, 0x41, 0x47, 0x11, 0x83, 0x6e,
    0x87, 0x8e, 0x5f, 0x25, 0x00, 0x49, 0xcc, 0x0c, 0x4c, 0x75,
    0x51, 0x0c, 0x9f, 0x13, 0x87, 0x56, 0x85, 0xf9, 0x1d, 0x52,
    0xc4, 0xa6, 0xa5, 0xf9, 0xef, 0x42, 0x4c, 0xcc, 0xb2, 0xf4,
    0xcb, 0xf5, 0x92, 0x99, 0x4d, 0xb7, 0x35, 0xc3, 0x20, 0x00,
    0x4d, 0xe9, 0x92, 0xa7, 0xe5, 0xcc, 0x93, 0xa5, 0xc7, 0x0d,
    0x61, 0x7e, 0xc5, 0x31, 0xfb, 0x0f, 0xed, 0xc7, 0xd3, 0x4b,
    0x9c, 0xed, 0x18, 0x7a, 0x4c, 0x2d, 0xb0, 0x3b, 0x87, 0xd7,
    0x07, 0x6c, 0x2c, 0x72, 0xd7, 0xd6, 0xbd, 0x85, 0x35, 0x2a,
    0x20, 0x01, 0x18, 0x55, 0x34, 0xac, 0x3b, 0x06, 0xc1, 0x0d,
    0xa7, 0xfc, 0xb3, 0x2e, 0x6e, 0xff, 0x2f, 0xc0, 0x28, 0x81,
];

/// The canonical uncompressed encoding of the generator of G2.
pub const G2_GENERATOR_ENCODING: [u8; 570] = [
    0xbc, 0x7e, 0x6f, 0xb3, 0xf0, 0xe5, 0x75, 0x2b, 0x54, 0x60,
    0x9b, 0x19, 0x24, 0x7a, 0xf0, 0xdc, 0x72, 0xf0, 0xae, 0xec,
    0x30, 0x34, 0xfc, 0x6d, 0x26, 0x0d, 0xcf, 0x25, 0x29, 0xe1,
    0x1f, 0xa6, 0x66, 0x8d, 0x15, 0x2c, 0x20, 0xb4, 0x29, 0x01,
    0x17, 0xfa, 0xb8, 0xc2, 0xad, 0x81, 0xec, 0xc9, 0x1b, 0xfc,
    0x39, 0x40, 0xdd, 0x8b, 0xb7, 0x07, 0x8b, 0x13, 0x22, 0x29,
    0x74, 0xa7, 0x65, 0xc0, 0xf8, 0xc8, 0x68, 0x7c, 0x94, 0x99,
    0x73, 0xcf, 0xf7, 0x68, 0x6b, 0xff, 0x29, 0xf7, 0x6d, 0x79,
    0x9c, 0xa4, 0x6b, 0xe7, 0x74, 0x2c, 0x0b, 0x47, 0xfc, 0x1f,
    0x30, 0x08, 0x7c, 0x26, 0x01, 0x90, 0x78, 0x5c, 0x83, 0x93,
    0x63, 0x6f, 0x0a, 0x24, 0x90, 0xae, 0x59, 0x1b, 0xc7, 0x35,
    0x83, 0xd4, 0x61, 0xc3, 0xbf, 0x74, 0xf2, 0xb0, 0xfc, 0x13,
    0xaf, 0x48, 0x7c, 0x2f, 0xaa, 0x82, 0x20, 0xc0, 0xdd, 0xac,
    0x2f, 0x5f, 0x9f, 0xa4, 0x9b, 0x49, 0x30, 0x0a, 0x1e, 0x64,
    0xfc, 0x50, 0xeb, 0x92, 0x3c, 0xf8, 0xaf, 0xb8, 0x05, 0x85,
    0x8c, 0x8a, 0xa5, 0x79, 0x41, 0x87, 0xe7, 0xab, 0x32, 0x9f,
    0x1c, 0x23, 0xcd, 0x79, 0x91, 0xa9, 0x25, 0x63, 0x9c, 0x8b,
    0x04, 0xe4, 0x0b, 0xfb, 0x18, 0xbe, 0x92, 0x5f, 0x8b, 0x37,
    0xba, 0xc7, 0xb8, 0xb7, 0x05, 0xf8, 0x32, 0x77, 0x82, 0x01,
    0x66, 0x85, 0x36, 0x9d, 0xc3, 0x20, 0xf0, 0x73, 0x3a, 0x23,
    0xff, 0x48, 0x24, 0x75, 0xfb, 0x6d, 0x04, 0xb5, 0xbf, 0xe9,
    0x4a, 0x69, 0xc6, 0x03, 0xc1, 0x8a, 0x00, 0xaa, 0x06, 0xc3,
    0x7b, 0xfe, 0x2d, 0x12, 0x35, 0x02, 0xf1, 0xb6, 0xa1, 0x33,
    0x6d, 0x73, 0x03, 0x3a, 0x44, 0x92, 0x86, 0x5e, 0x44, 0x50,
    0xbf, 0x1f, 0x10, 0x2b, 0xed, 0x5b, 0x24, 0x29, 0x04, 0x18,
    0xfc, 0xbb, 0xee, 0x0c, 0x5a, 0x89, 0xaf, 0xd0, 0x86, 0x8a,
    0x9f, 0x72, 0xe3, 0x1a, 0xc2, 0x41, 0x42, 0xff, 0xdb, 0xb0,
    0x85, 0x8c, 0x3d, 0xc4, 0x45, 0x8f, 0xe1, 0xce, 0xb9, 0xd5,
    0x14, 0x11, 0x5b, 0x8f, 0x01, 0x57, 0xc4, 0x56, 0xb7, 0x75,
    0x56, 0x73, 0x46, 0x16, 0xee, 0xe0, 0x58, 0xbc, 0xf1, 0x12,
    0x0c, 0x9e, 0xab, 0xdb, 0x8e, 0xcd, 0x3f, 0x60, 0xf9, 0xa0,
    0x9a, 0x5a, 0xef, 0x34, 0x03, 0x22, 0xa4, 0x89, 0x47, 0x0c,
    0xab, 0x80, 0x21, 0x5c, 0x1f, 0x66, 0x7e, 0xc1, 0xdc, 0xb7,
    0xb7, 0xc0, 0xff, 0x39, 0x8c, 0x52, 0x39, 0xb2, 0x58, 0xb3,
    0x73, 0x6e, 0xbf, 0x88, 0xb9, 0x22, 0x35, 0x77, 0x31, 0x78,
    0x55, 0xe1, 0x4c, 0x43, 0x5a, 0x71, 0x35, 0x9d, 0x7d, 0x53,
    0x49, 0xd3, 0x1d, 0x64, 0x62, 0x5e, 0x1c, 0x08, 0x47, 0x47,
    0x86, 0x6d, 0xd3, 0x29, 0x08, 0xe5, 0x55, 0x75, 0x1b, 0x00,
    0x79, 0x26, 0xdf, 0xd3, 0xca, 0x26, 0x0d, 0x86, 0xa5, 0x26,
    0x07, 0xcc, 0xae, 0xbc, 0x51, 0x0f, 0x1b, 0xa9, 0x19, 0x05,
    0xab, 0x14, 0x2d, 0x71, 0xe1, 0xc9, 0x1f, 0xf8, 0xf0, 0x43,
    0x6e, 0x4f, 0x1f, 0x31, 0xd7, 0x8e, 0xc2, 0xd8, 0x70, 0xf2,
    0x5f, 0xc2, 0xc4, 0x8f, 0x5d, 0x95, 0xdb, 0x7a, 0x15, 0xd2,
    0x65, 0xeb, 0x15, 0x55, 0x9b, 0xc9, 0xfc, 0x3e, 0xee, 0x14,
    0x3a, 0x9f, 0x92, 0xeb, 0xe2, 0x76, 0x88, 0xdb, 0x38, 0x54,
    0x34, 0xc7, 0xe8, 0x2e, 0x3d, 0x7a, 0xd4, 0x14, 0x5c, 0xd7,
    0x34, 0xc8, 0x25, 0x36, 0x59, 0x9d, 0xab, 0x58, 0x72, 0x45,
    0x30, 0x7f, 0xf4, 0x53, 0x00, 0x79, 0xae, 0xb8, 0x63, 0xa1,
    0x53, 0xd3, 0x68, 0xb2, 0xa0, 0x98, 0x8c, 0xe4, 0xd8, 0x57,
    0x60, 0x6c, 0x01, 0x34, 0x95, 0x53, 0x44, 0x59, 0x39, 0xc5,
    0x3f, 0x4b, 0xc9, 0xb8, 0x75, 0xfd, 0xd3, 0xd2, 0xb0, 0xe2,
    0x19, 0x1e, 0x73, 0x53, 0x14, 0x7b, 0x1f, 0x9e, 0x2b, 0x6b,
    0xfe, 0x67, 0xe5, 0xd5, 0x99, 0xe3, 0x01, 0x1a, 0x48, 0x7e,
    0x0f, 0xde, 0xfb, 0xb7, 0xdf, 0x06, 0x3e, 0x8d, 0x1e, 0x37,
    0xb7, 0xdd, 0x71, 0x91, 0x99, 0xa2, 0xcd, 0xf0, 0x0e, 0x10,
    0x11, 0xe6, 0xd5, 0x0d, 0x01, 0x33, 0x98, 0x05, 0x98, 0x17,
    0x29, 0x58, 0xfb, 0xb1, 0x59, 0xc6, 0xa4, 0x18, 0xe3, 0x80,
];

} // verus!
