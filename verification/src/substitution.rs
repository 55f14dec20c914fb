//! The AES substitution layer: the S-box built from the GF(2^8)
//! multiplicative inverse followed by an affine transform, given here as its
//! standard precomputed 256-entry table, together with the inverse table.
//!
//! The table lookup is not constant-time against cache-timing side channels;
//! that is an open concern for production use and out of scope here.

use vstd::prelude::*;

verus! {

/// The AES S-box as a total function over all 256 byte values.
pub open spec fn sub_byte_spec(b: u8) -> u8 {
    match b {
        0x00u8 => 0x63u8,
        0x01u8 => 0x7cu8,
        0x02u8 => 0x77u8,
        0x03u8 => 0x7bu8,
        0x04u8 => 0xf2u8,
        0x05u8 => 0x6bu8,
        0x06u8 => 0x6fu8,
        0x07u8 => 0xc5u8,
        0x08u8 => 0x30u8,
        0x09u8 => 0x01u8,
        0x0au8 => 0x67u8,
        0x0bu8 => 0x2bu8,
        0x0cu8 => 0xfeu8,
        0x0du8 => 0xd7u8,
        0x0eu8 => 0xabu8,
        0x0fu8 => 0x76u8,
        0x10u8 => 0xcau8,
        0x11u8 => 0x82u8,
        0x12u8 => 0xc9u8,
        0x13u8 => 0x7du8,
        0x14u8 => 0xfau8,
        0x15u8 => 0x59u8,
        0x16u8 => 0x47u8,
        0x17u8 => 0xf0u8,
        0x18u8 => 0xadu8,
        0x19u8 => 0xd4u8,
        0x1au8 => 0xa2u8,
        0x1bu8 => 0xafu8,
        0x1cu8 => 0x9cu8,
        0x1du8 => 0xa4u8,
        0x1eu8 => 0x72u8,
        0x1fu8 => 0xc0u8,
        0x20u8 => 0xb7u8,
        0x21u8 => 0xfdu8,
        0x22u8 => 0x93u8,
        0x23u8 => 0x26u8,
        0x24u8 => 0x36u8,
        0x25u8 => 0x3fu8,
        0x26u8 => 0xf7u8,
        0x27u8 => 0xccu8,
        0x28u8 => 0x34u8,
        0x29u8 => 0xa5u8,
        0x2au8 => 0xe5u8,
        0x2bu8 => 0xf1u8,
        0x2cu8 => 0x71u8,
        0x2du8 => 0xd8u8,
        0x2eu8 => 0x31u8,
        0x2fu8 => 0x15u8,
        0x30u8 => 0x04u8,
        0x31u8 => 0xc7u8,
        0x32u8 => 0x23u8,
        0x33u8 => 0xc3u8,
        0x34u8 => 0x18u8,
        0x35u8 => 0x96u8,
        0x36u8 => 0x05u8,
        0x37u8 => 0x9au8,
        0x38u8 => 0x07u8,
        0x39u8 => 0x12u8,
        0x3au8 => 0x80u8,
        0x3bu8 => 0xe2u8,
        0x3cu8 => 0xebu8,
        0x3du8 => 0x27u8,
        0x3eu8 => 0xb2u8,
        0x3fu8 => 0x75u8,
        0x40u8 => 0x09u8,
        0x41u8 => 0x83u8,
        0x42u8 => 0x2cu8,
        0x43u8 => 0x1au8,
        0x44u8 => 0x1bu8,
        0x45u8 => 0x6eu8,
        0x46u8 => 0x5au8,
        0x47u8 => 0xa0u8,
        0x48u8 => 0x52u8,
        0x49u8 => 0x3bu8,
        0x4au8 => 0xd6u8,
        0x4bu8 => 0xb3u8,
        0x4cu8 => 0x29u8,
        0x4du8 => 0xe3u8,
        0x4eu8 => 0x2fu8,
        0x4fu8 => 0x84u8,
        0x50u8 => 0x53u8,
        0x51u8 => 0xd1u8,
        0x52u8 => 0x00u8,
        0x53u8 => 0xedu8,
        0x54u8 => 0x20u8,
        0x55u8 => 0xfcu8,
        0x56u8 => 0xb1u8,
        0x57u8 => 0x5bu8,
        0x58u8 => 0x6au8,
        0x59u8 => 0xcbu8,
        0x5au8 => 0xbeu8,
        0x5bu8 => 0x39u8,
        0x5cu8 => 0x4au8,
        0x5du8 => 0x4cu8,
        0x5eu8 => 0x58u8,
        0x5fu8 => 0xcfu8,
        0x60u8 => 0xd0u8,
        0x61u8 => 0xefu8,
        0x62u8 => 0xaau8,
        0x63u8 => 0xfbu8,
        0x64u8 => 0x43u8,
        0x65u8 => 0x4du8,
        0x66u8 => 0x33u8,
        0x67u8 => 0x85u8,
        0x68u8 => 0x45u8,
        0x69u8 => 0xf9u8,
        0x6au8 => 0x02u8,
        0x6bu8 => 0x7fu8,
        0x6cu8 => 0x50u8,
        0x6du8 => 0x3cu8,
        0x6eu8 => 0x9fu8,
        0x6fu8 => 0xa8u8,
        0x70u8 => 0x51u8,
        0x71u8 => 0xa3u8,
        0x72u8 => 0x40u8,
        0x73u8 => 0x8fu8,
        0x74u8 => 0x92u8,
        0x75u8 => 0x9du8,
        0x76u8 => 0x38u8,
        0x77u8 => 0xf5u8,
        0x78u8 => 0xbcu8,
        0x79u8 => 0xb6u8,
        0x7au8 => 0xdau8,
        0x7bu8 => 0x21u8,
        0x7cu8 => 0x10u8,
        0x7du8 => 0xffu8,
        0x7eu8 => 0xf3u8,
        0x7fu8 => 0xd2u8,
        0x80u8 => 0xcdu8,
        0x81u8 => 0x0cu8,
        0x82u8 => 0x13u8,
        0x83u8 => 0xecu8,
        0x84u8 => 0x5fu8,
        0x85u8 => 0x97u8,
        0x86u8 => 0x44u8,
        0x87u8 => 0x17u8,
        0x88u8 => 0xc4u8,
        0x89u8 => 0xa7u8,
        0x8au8 => 0x7eu8,
        0x8bu8 => 0x3du8,
        0x8cu8 => 0x64u8,
        0x8du8 => 0x5du8,
        0x8eu8 => 0x19u8,
        0x8fu8 => 0x73u8,
        0x90u8 => 0x60u8,
        0x91u8 => 0x81u8,
        0x92u8 => 0x4fu8,
        0x93u8 => 0xdcu8,
        0x94u8 => 0x22u8,
        0x95u8 => 0x2au8,
        0x96u8 => 0x90u8,
        0x97u8 => 0x88u8,
        0x98u8 => 0x46u8,
        0x99u8 => 0xeeu8,
        0x9au8 => 0xb8u8,
        0x9bu8 => 0x14u8,
        0x9cu8 => 0xdeu8,
        0x9du8 => 0x5eu8,
        0x9eu8 => 0x0bu8,
        0x9fu8 => 0xdbu8,
        0xa0u8 => 0xe0u8,
        0xa1u8 => 0x32u8,
        0xa2u8 => 0x3au8,
        0xa3u8 => 0x0au8,
        0xa4u8 => 0x49u8,
        0xa5u8 => 0x06u8,
        0xa6u8 => 0x24u8,
        0xa7u8 => 0x5cu8,
        0xa8u8 => 0xc2u8,
        0xa9u8 => 0xd3u8,
        0xaau8 => 0xacu8,
        0xabu8 => 0x62u8,
        0xacu8 => 0x91u8,
        0xadu8 => 0x95u8,
        0xaeu8 => 0xe4u8,
        0xafu8 => 0x79u8,
        0xb0u8 => 0xe7u8,
        0xb1u8 => 0xc8u8,
        0xb2u8 => 0x37u8,
        0xb3u8 => 0x6du8,
        0xb4u8 => 0x8du8,
        0xb5u8 => 0xd5u8,
        0xb6u8 => 0x4eu8,
        0xb7u8 => 0xa9u8,
        0xb8u8 => 0x6cu8,
        0xb9u8 => 0x56u8,
        0xbau8 => 0xf4u8,
        0xbbu8 => 0xeau8,
        0xbcu8 => 0x65u8,
        0xbdu8 => 0x7au8,
        0xbeu8 => 0xaeu8,
        0xbfu8 => 0x08u8,
        0xc0u8 => 0xbau8,
        0xc1u8 => 0x78u8,
        0xc2u8 => 0x25u8,
        0xc3u8 => 0x2eu8,
        0xc4u8 => 0x1cu8,
        0xc5u8 => 0xa6u8,
        0xc6u8 => 0xb4u8,
        0xc7u8 => 0xc6u8,
        0xc8u8 => 0xe8u8,
        0xc9u8 => 0xddu8,
        0xcau8 => 0x74u8,
        0xcbu8 => 0x1fu8,
        0xccu8 => 0x4bu8,
        0xcdu8 => 0xbdu8,
        0xceu8 => 0x8bu8,
        0xcfu8 => 0x8au8,
        0xd0u8 => 0x70u8,
        0xd1u8 => 0x3eu8,
        0xd2u8 => 0xb5u8,
        0xd3u8 => 0x66u8,
        0xd4u8 => 0x48u8,
        0xd5u8 => 0x03u8,
        0xd6u8 => 0xf6u8,
        0xd7u8 => 0x0eu8,
        0xd8u8 => 0x61u8,
        0xd9u8 => 0x35u8,
        0xdau8 => 0x57u8,
        0xdbu8 => 0xb9u8,
        0xdcu8 => 0x86u8,
        0xddu8 => 0xc1u8,
        0xdeu8 => 0x1du8,
        0xdfu8 => 0x9eu8,
        0xe0u8 => 0xe1u8,
        0xe1u8 => 0xf8u8,
        0xe2u8 => 0x98u8,
        0xe3u8 => 0x11u8,
        0xe4u8 => 0x69u8,
        0xe5u8 => 0xd9u8,
        0xe6u8 => 0x8eu8,
        0xe7u8 => 0x94u8,
        0xe8u8 => 0x9bu8,
        0xe9u8 => 0x1eu8,
        0xeau8 => 0x87u8,
        0xebu8 => 0xe9u8,
        0xecu8 => 0xceu8,
        0xedu8 => 0x55u8,
        0xeeu8 => 0x28u8,
        0xefu8 => 0xdfu8,
        0xf0u8 => 0x8cu8,
        0xf1u8 => 0xa1u8,
        0xf2u8 => 0x89u8,
        0xf3u8 => 0x0du8,
        0xf4u8 => 0xbfu8,
        0xf5u8 => 0xe6u8,
        0xf6u8 => 0x42u8,
        0xf7u8 => 0x68u8,
        0xf8u8 => 0x41u8,
        0xf9u8 => 0x99u8,
        0xfau8 => 0x2du8,
        0xfbu8 => 0x0fu8,
        0xfcu8 => 0xb0u8,
        0xfdu8 => 0x54u8,
        0xfeu8 => 0xbbu8,
        0xffu8 => 0x16u8,
    }
}

/// The inverse AES S-box as a total function over all 256 byte values.
pub open spec fn inv_sub_byte_spec(b: u8) -> u8 {
    match b {
        0x00u8 => 0x52u8,
        0x01u8 => 0x09u8,
        0x02u8 => 0x6au8,
        0x03u8 => 0xd5u8,
        0x04u8 => 0x30u8,
        0x05u8 => 0x36u8,
        0x06u8 => 0xa5u8,
        0x07u8 => 0x38u8,
        0x08u8 => 0xbfu8,
        0x09u8 => 0x40u8,
        0x0au8 => 0xa3u8,
        0x0bu8 => 0x9eu8,
        0x0cu8 => 0x81u8,
        0x0du8 => 0xf3u8,
        0x0eu8 => 0xd7u8,
        0x0fu8 => 0xfbu8,
        0x10u8 => 0x7cu8,
        0x11u8 => 0xe3u8,
        0x12u8 => 0x39u8,
        0x13u8 => 0x82u8,
        0x14u8 => 0x9bu8,
        0x15u8 => 0x2fu8,
        0x16u8 => 0xffu8,
        0x17u8 => 0x87u8,
        0x18u8 => 0x34u8,
        0x19u8 => 0x8eu8,
        0x1au8 => 0x43u8,
        0x1bu8 => 0x44u8,
        0x1cu8 => 0xc4u8,
        0x1du8 => 0xdeu8,
        0x1eu8 => 0xe9u8,
        0x1fu8 => 0xcbu8,
        0x20u8 => 0x54u8,
        0x21u8 => 0x7bu8,
        0x22u8 => 0x94u8,
        0x23u8 => 0x32u8,
        0x24u8 => 0xa6u8,
        0x25u8 => 0xc2u8,
        0x26u8 => 0x23u8,
        0x27u8 => 0x3du8,
        0x28u8 => 0xeeu8,
        0x29u8 => 0x4cu8,
        0x2au8 => 0x95u8,
        0x2bu8 => 0x0bu8,
        0x2cu8 => 0x42u8,
        0x2du8 => 0xfau8,
        0x2eu8 => 0xc3u8,
        0x2fu8 => 0x4eu8,
        0x30u8 => 0x08u8,
        0x31u8 => 0x2eu8,
        0x32u8 => 0xa1u8,
        0x33u8 => 0x66u8,
        0x34u8 => 0x28u8,
        0x35u8 => 0xd9u8,
        0x36u8 => 0x24u8,
        0x37u8 => 0xb2u8,
        0x38u8 => 0x76u8,
        0x39u8 => 0x5bu8,
        0x3au8 => 0xa2u8,
        0x3bu8 => 0x49u8,
        0x3cu8 => 0x6du8,
        0x3du8 => 0x8bu8,
        0x3eu8 => 0xd1u8,
        0x3fu8 => 0x25u8,
        0x40u8 => 0x72u8,
        0x41u8 => 0xf8u8,
        0x42u8 => 0xf6u8,
        0x43u8 => 0x64u8,
        0x44u8 => 0x86u8,
        0x45u8 => 0x68u8,
        0x46u8 => 0x98u8,
        0x47u8 => 0x16u8,
        0x48u8 => 0xd4u8,
        0x49u8 => 0xa4u8,
        0x4au8 => 0x5cu8,
        0x4bu8 => 0xccu8,
        0x4cu8 => 0x5du8,
        0x4du8 => 0x65u8,
        0x4eu8 => 0xb6u8,
        0x4fu8 => 0x92u8,
        0x50u8 => 0x6cu8,
        0x51u8 => 0x70u8,
        0x52u8 => 0x48u8,
        0x53u8 => 0x50u8,
        0x54u8 => 0xfdu8,
        0x55u8 => 0xedu8,
        0x56u8 => 0xb9u8,
        0x57u8 => 0xdau8,
        0x58u8 => 0x5eu8,
        0x59u8 => 0x15u8,
        0x5au8 => 0x46u8,
        0x5bu8 => 0x57u8,
        0x5cu8 => 0xa7u8,
        0x5du8 => 0x8du8,
        0x5eu8 => 0x9du8,
        0x5fu8 => 0x84u8,
        0x60u8 => 0x90u8,
        0x61u8 => 0xd8u8,
        0x62u8 => 0xabu8,
        0x63u8 => 0x00u8,
        0x64u8 => 0x8cu8,
        0x65u8 => 0xbcu8,
        0x66u8 => 0xd3u8,
        0x67u8 => 0x0au8,
        0x68u8 => 0xf7u8,
        0x69u8 => 0xe4u8,
        0x6au8 => 0x58u8,
        0x6bu8 => 0x05u8,
        0x6cu8 => 0xb8u8,
        0x6du8 => 0xb3u8,
        0x6eu8 => 0x45u8,
        0x6fu8 => 0x06u8,
        0x70u8 => 0xd0u8,
        0x71u8 => 0x2cu8,
        0x72u8 => 0x1eu8,
        0x73u8 => 0x8fu8,
        0x74u8 => 0xcau8,
        0x75u8 => 0x3fu8,
        0x76u8 => 0x0fu8,
        0x77u8 => 0x02u8,
        0x78u8 => 0xc1u8,
        0x79u8 => 0xafu8,
        0x7au8 => 0xbdu8,
        0x7bu8 => 0x03u8,
        0x7cu8 => 0x01u8,
        0x7du8 => 0x13u8,
        0x7eu8 => 0x8au8,
        0x7fu8 => 0x6bu8,
        0x80u8 => 0x3au8,
        0x81u8 => 0x91u8,
        0x82u8 => 0x11u8,
        0x83u8 => 0x41u8,
        0x84u8 => 0x4fu8,
        0x85u8 => 0x67u8,
        0x86u8 => 0xdcu8,
        0x87u8 => 0xeau8,
        0x88u8 => 0x97u8,
        0x89u8 => 0xf2u8,
        0x8au8 => 0xcfu8,
        0x8bu8 => 0xceu8,
        0x8cu8 => 0xf0u8,
        0x8du8 => 0xb4u8,
        0x8eu8 => 0xe6u8,
        0x8fu8 => 0x73u8,
        0x90u8 => 0x96u8,
        0x91u8 => 0xacu8,
        0x92u8 => 0x74u8,
        0x93u8 => 0x22u8,
        0x94u8 => 0xe7u8,
        0x95u8 => 0xadu8,
        0x96u8 => 0x35u8,
        0x97u8 => 0x85u8,
        0x98u8 => 0xe2u8,
        0x99u8 => 0xf9u8,
        0x9au8 => 0x37u8,
        0x9bu8 => 0xe8u8,
        0x9cu8 => 0x1cu8,
        0x9du8 => 0x75u8,
        0x9eu8 => 0xdfu8,
        0x9fu8 => 0x6eu8,
        0xa0u8 => 0x47u8,
        0xa1u8 => 0xf1u8,
        0xa2u8 => 0x1au8,
        0xa3u8 => 0x71u8,
        0xa4u8 => 0x1du8,
        0xa5u8 => 0x29u8,
        0xa6u8 => 0xc5u8,
        0xa7u8 => 0x89u8,
        0xa8u8 => 0x6fu8,
        0xa9u8 => 0xb7u8,
        0xaau8 => 0x62u8,
        0xabu8 => 0x0eu8,
        0xacu8 => 0xaau8,
        0xadu8 => 0x18u8,
        0xaeu8 => 0xbeu8,
        0xafu8 => 0x1bu8,
        0xb0u8 => 0xfcu8,
        0xb1u8 => 0x56u8,
        0xb2u8 => 0x3eu8,
        0xb3u8 => 0x4bu8,
        0xb4u8 => 0xc6u8,
        0xb5u8 => 0xd2u8,
        0xb6u8 => 0x79u8,
        0xb7u8 => 0x20u8,
        0xb8u8 => 0x9au8,
        0xb9u8 => 0xdbu8,
        0xbau8 => 0xc0u8,
        0xbbu8 => 0xfeu8,
        0xbcu8 => 0x78u8,
        0xbdu8 => 0xcdu8,
        0xbeu8 => 0x5au8,
        0xbfu8 => 0xf4u8,
        0xc0u8 => 0x1fu8,
        0xc1u8 => 0xddu8,
        0xc2u8 => 0xa8u8,
        0xc3u8 => 0x33u8,
        0xc4u8 => 0x88u8,
        0xc5u8 => 0x07u8,
        0xc6u8 => 0xc7u8,
        0xc7u8 => 0x31u8,
        0xc8u8 => 0xb1u8,
        0xc9u8 => 0x12u8,
        0xcau8 => 0x10u8,
        0xcbu8 => 0x59u8,
        0xccu8 => 0x27u8,
        0xcdu8 => 0x80u8,
        0xceu8 => 0xecu8,
        0xcfu8 => 0x5fu8,
        0xd0u8 => 0x60u8,
        0xd1u8 => 0x51u8,
        0xd2u8 => 0x7fu8,
        0xd3u8 => 0xa9u8,
        0xd4u8 => 0x19u8,
        0xd5u8 => 0xb5u8,
        0xd6u8 => 0x4au8,
        0xd7u8 => 0x0du8,
        0xd8u8 => 0x2du8,
        0xd9u8 => 0xe5u8,
        0xdau8 => 0x7au8,
        0xdbu8 => 0x9fu8,
        0xdcu8 => 0x93u8,
        0xddu8 => 0xc9u8,
        0xdeu8 => 0x9cu8,
        0xdfu8 => 0xefu8,
        0xe0u8 => 0xa0u8,
        0xe1u8 => 0xe0u8,
        0xe2u8 => 0x3bu8,
        0xe3u8 => 0x4du8,
        0xe4u8 => 0xaeu8,
        0xe5u8 => 0x2au8,
        0xe6u8 => 0xf5u8,
        0xe7u8 => 0xb0u8,
        0xe8u8 => 0xc8u8,
        0xe9u8 => 0xebu8,
        0xeau8 => 0xbbu8,
        0xebu8 => 0x3cu8,
        0xecu8 => 0x83u8,
        0xedu8 => 0x53u8,
        0xeeu8 => 0x99u8,
        0xefu8 => 0x61u8,
        0xf0u8 => 0x17u8,
        0xf1u8 => 0x2bu8,
        0xf2u8 => 0x04u8,
        0xf3u8 => 0x7eu8,
        0xf4u8 => 0xbau8,
        0xf5u8 => 0x77u8,
        0xf6u8 => 0xd6u8,
        0xf7u8 => 0x26u8,
        0xf8u8 => 0xe1u8,
        0xf9u8 => 0x69u8,
        0xfau8 => 0x14u8,
        0xfbu8 => 0x63u8,
        0xfcu8 => 0x55u8,
        0xfdu8 => 0x21u8,
        0xfeu8 => 0x0cu8,
        0xffu8 => 0x7du8,
    }
}

/// The two tables are mutually inverse permutations of the 256 byte values:
/// substituting and then inverse-substituting any byte returns it unchanged.
pub proof fn lemma_substitution_involution(b: u8)
    ensures
        inv_sub_byte_spec(sub_byte_spec(b)) == b,
        sub_byte_spec(inv_sub_byte_spec(b)) == b,
{
    assert(inv_sub_byte_spec(sub_byte_spec(b)) == b) by (bit_vector);
    assert(sub_byte_spec(inv_sub_byte_spec(b)) == b) by (bit_vector);
}

/// S-box lookup for one byte.
pub fn sub_byte(b: u8) -> (r: u8)
    ensures
        r == sub_byte_spec(b),
{
    match b {
        0x00u8 => 0x63u8,
        0x01u8 => 0x7cu8,
        0x02u8 => 0x77u8,
        0x03u8 => 0x7bu8,
        0x04u8 => 0xf2u8,
        0x05u8 => 0x6bu8,
        0x06u8 => 0x6fu8,
        0x07u8 => 0xc5u8,
        0x08u8 => 0x30u8,
        0x09u8 => 0x01u8,
        0x0au8 => 0x67u8,
        0x0bu8 => 0x2bu8,
        0x0cu8 => 0xfeu8,
        0x0du8 => 0xd7u8,
        0x0eu8 => 0xabu8,
        0x0fu8 => 0x76u8,
        0x10u8 => 0xcau8,
        0x11u8 => 0x82u8,
        0x12u8 => 0xc9u8,
        0x13u8 => 0x7du8,
        0x14u8 => 0xfau8,
        0x15u8 => 0x59u8,
        0x16u8 => 0x47u8,
        0x17u8 => 0xf0u8,
        0x18u8 => 0xadu8,
        0x19u8 => 0xd4u8,
        0x1au8 => 0xa2u8,
        0x1bu8 => 0xafu8,
        0x1cu8 => 0x9cu8,
        0x1du8 => 0xa4u8,
        0x1eu8 => 0x72u8,
        0x1fu8 => 0xc0u8,
        0x20u8 => 0xb7u8,
        0x21u8 => 0xfdu8,
        0x22u8 => 0x93u8,
        0x23u8 => 0x26u8,
        0x24u8 => 0x36u8,
        0x25u8 => 0x3fu8,
        0x26u8 => 0xf7u8,
        0x27u8 => 0xccu8,
        0x28u8 => 0x34u8,
        0x29u8 => 0xa5u8,
        0x2au8 => 0xe5u8,
        0x2bu8 => 0xf1u8,
        0x2cu8 => 0x71u8,
        0x2du8 => 0xd8u8,
        0x2eu8 => 0x31u8,
        0x2fu8 => 0x15u8,
        0x30u8 => 0x04u8,
        0x31u8 => 0xc7u8,
        0x32u8 => 0x23u8,
        0x33u8 => 0xc3u8,
        0x34u8 => 0x18u8,
        0x35u8 => 0x96u8,
        0x36u8 => 0x05u8,
        0x37u8 => 0x9au8,
        0x38u8 => 0x07u8,
        0x39u8 => 0x12u8,
        0x3au8 => 0x80u8,
        0x3bu8 => 0xe2u8,
        0x3cu8 => 0xebu8,
        0x3du8 => 0x27u8,
        0x3eu8 => 0xb2u8,
        0x3fu8 => 0x75u8,
        0x40u8 => 0x09u8,
        0x41u8 => 0x83u8,
        0x42u8 => 0x2cu8,
        0x43u8 => 0x1au8,
        0x44u8 => 0x1bu8,
        0x45u8 => 0x6eu8,
        0x46u8 => 0x5au8,
        0x47u8 => 0xa0u8,
        0x48u8 => 0x52u8,
        0x49u8 => 0x3bu8,
        0x4au8 => 0xd6u8,
        0x4bu8 => 0xb3u8,
        0x4cu8 => 0x29u8,
        0x4du8 => 0xe3u8,
        0x4eu8 => 0x2fu8,
        0x4fu8 => 0x84u8,
        0x50u8 => 0x53u8,
        0x51u8 => 0xd1u8,
        0x52u8 => 0x00u8,
        0x53u8 => 0xedu8,
        0x54u8 => 0x20u8,
        0x55u8 => 0xfcu8,
        0x56u8 => 0xb1u8,
        0x57u8 => 0x5bu8,
        0x58u8 => 0x6au8,
        0x59u8 => 0xcbu8,
        0x5au8 => 0xbeu8,
        0x5bu8 => 0x39u8,
        0x5cu8 => 0x4au8,
        0x5du8 => 0x4cu8,
        0x5eu8 => 0x58u8,
        0x5fu8 => 0xcfu8,
        0x60u8 => 0xd0u8,
        0x61u8 => 0xefu8,
        0x62u8 => 0xaau8,
        0x63u8 => 0xfbu8,
        0x64u8 => 0x43u8,
        0x65u8 => 0x4du8,
        0x66u8 => 0x33u8,
        0x67u8 => 0x85u8,
        0x68u8 => 0x45u8,
        0x69u8 => 0xf9u8,
        0x6au8 => 0x02u8,
        0x6bu8 => 0x7fu8,
        0x6cu8 => 0x50u8,
        0x6du8 => 0x3cu8,
        0x6eu8 => 0x9fu8,
        0x6fu8 => 0xa8u8,
        0x70u8 => 0x51u8,
        0x71u8 => 0xa3u8,
        0x72u8 => 0x40u8,
        0x73u8 => 0x8fu8,
        0x74u8 => 0x92u8,
        0x75u8 => 0x9du8,
        0x76u8 => 0x38u8,
        0x77u8 => 0xf5u8,
        0x78u8 => 0xbcu8,
        0x79u8 => 0xb6u8,
        0x7au8 => 0xdau8,
        0x7bu8 => 0x21u8,
        0x7cu8 => 0x10u8,
        0x7du8 => 0xffu8,
        0x7eu8 => 0xf3u8,
        0x7fu8 => 0xd2u8,
        0x80u8 => 0xcdu8,
        0x81u8 => 0x0cu8,
        0x82u8 => 0x13u8,
        0x83u8 => 0xecu8,
        0x84u8 => 0x5fu8,
        0x85u8 => 0x97u8,
        0x86u8 => 0x44u8,
        0x87u8 => 0x17u8,
        0x88u8 => 0xc4u8,
        0x89u8 => 0xa7u8,
        0x8au8 => 0x7eu8,
        0x8bu8 => 0x3du8,
        0x8cu8 => 0x64u8,
        0x8du8 => 0x5du8,
        0x8eu8 => 0x19u8,
        0x8fu8 => 0x73u8,
        0x90u8 => 0x60u8,
        0x91u8 => 0x81u8,
        0x92u8 => 0x4fu8,
        0x93u8 => 0xdcu8,
        0x94u8 => 0x22u8,
        0x95u8 => 0x2au8,
        0x96u8 => 0x90u8,
        0x97u8 => 0x88u8,
        0x98u8 => 0x46u8,
        0x99u8 => 0xeeu8,
        0x9au8 => 0xb8u8,
        0x9bu8 => 0x14u8,
        0x9cu8 => 0xdeu8,
        0x9du8 => 0x5eu8,
        0x9eu8 => 0x0bu8,
        0x9fu8 => 0xdbu8,
        0xa0u8 => 0xe0u8,
        0xa1u8 => 0x32u8,
        0xa2u8 => 0x3au8,
        0xa3u8 => 0x0au8,
        0xa4u8 => 0x49u8,
        0xa5u8 => 0x06u8,
        0xa6u8 => 0x24u8,
        0xa7u8 => 0x5cu8,
        0xa8u8 => 0xc2u8,
        0xa9u8 => 0xd3u8,
        0xaau8 => 0xacu8,
        0xabu8 => 0x62u8,
        0xacu8 => 0x91u8,
        0xadu8 => 0x95u8,
        0xaeu8 => 0xe4u8,
        0xafu8 => 0x79u8,
        0xb0u8 => 0xe7u8,
        0xb1u8 => 0xc8u8,
        0xb2u8 => 0x37u8,
        0xb3u8 => 0x6du8,
        0xb4u8 => 0x8du8,
        0xb5u8 => 0xd5u8,
        0xb6u8 => 0x4eu8,
        0xb7u8 => 0xa9u8,
        0xb8u8 => 0x6cu8,
        0xb9u8 => 0x56u8,
        0xbau8 => 0xf4u8,
        0xbbu8 => 0xeau8,
        0xbcu8 => 0x65u8,
        0xbdu8 => 0x7au8,
        0xbeu8 => 0xaeu8,
        0xbfu8 => 0x08u8,
        0xc0u8 => 0xbau8,
        0xc1u8 => 0x78u8,
        0xc2u8 => 0x25u8,
        0xc3u8 => 0x2eu8,
        0xc4u8 => 0x1cu8,
        0xc5u8 => 0xa6u8,
        0xc6u8 => 0xb4u8,
        0xc7u8 => 0xc6u8,
        0xc8u8 => 0xe8u8,
        0xc9u8 => 0xddu8,
        0xcau8 => 0x74u8,
        0xcbu8 => 0x1fu8,
        0xccu8 => 0x4bu8,
        0xcdu8 => 0xbdu8,
        0xceu8 => 0x8bu8,
        0xcfu8 => 0x8au8,
        0xd0u8 => 0x70u8,
        0xd1u8 => 0x3eu8,
        0xd2u8 => 0xb5u8,
        0xd3u8 => 0x66u8,
        0xd4u8 => 0x48u8,
        0xd5u8 => 0x03u8,
        0xd6u8 => 0xf6u8,
        0xd7u8 => 0x0eu8,
        0xd8u8 => 0x61u8,
        0xd9u8 => 0x35u8,
        0xdau8 => 0x57u8,
        0xdbu8 => 0xb9u8,
        0xdcu8 => 0x86u8,
        0xddu8 => 0xc1u8,
        0xdeu8 => 0x1du8,
        0xdfu8 => 0x9eu8,
        0xe0u8 => 0xe1u8,
        0xe1u8 => 0xf8u8,
        0xe2u8 => 0x98u8,
        0xe3u8 => 0x11u8,
        0xe4u8 => 0x69u8,
        0xe5u8 => 0xd9u8,
        0xe6u8 => 0x8eu8,
        0xe7u8 => 0x94u8,
        0xe8u8 => 0x9bu8,
        0xe9u8 => 0x1eu8,
        0xeau8 => 0x87u8,
        0xebu8 => 0xe9u8,
        0xecu8 => 0xceu8,
        0xedu8 => 0x55u8,
        0xeeu8 => 0x28u8,
        0xefu8 => 0xdfu8,
        0xf0u8 => 0x8cu8,
        0xf1u8 => 0xa1u8,
        0xf2u8 => 0x89u8,
        0xf3u8 => 0x0du8,
        0xf4u8 => 0xbfu8,
        0xf5u8 => 0xe6u8,
        0xf6u8 => 0x42u8,
        0xf7u8 => 0x68u8,
        0xf8u8 => 0x41u8,
        0xf9u8 => 0x99u8,
        0xfau8 => 0x2du8,
        0xfbu8 => 0x0fu8,
        0xfcu8 => 0xb0u8,
        0xfdu8 => 0x54u8,
        0xfeu8 => 0xbbu8,
        0xffu8 => 0x16u8,
    }
}

/// Inverse S-box lookup for one byte.
pub fn inv_sub_byte(b: u8) -> (r: u8)
    ensures
        r == inv_sub_byte_spec(b),
{
    match b {
        0x00u8 => 0x52u8,
        0x01u8 => 0x09u8,
        0x02u8 => 0x6au8,
        0x03u8 => 0xd5u8,
        0x04u8 => 0x30u8,
        0x05u8 => 0x36u8,
        0x06u8 => 0xa5u8,
        0x07u8 => 0x38u8,
        0x08u8 => 0xbfu8,
        0x09u8 => 0x40u8,
        0x0au8 => 0xa3u8,
        0x0bu8 => 0x9eu8,
        0x0cu8 => 0x81u8,
        0x0du8 => 0xf3u8,
        0x0eu8 => 0xd7u8,
        0x0fu8 => 0xfbu8,
        0x10u8 => 0x7cu8,
        0x11u8 => 0xe3u8,
        0x12u8 => 0x39u8,
        0x13u8 => 0x82u8,
        0x14u8 => 0x9bu8,
        0x15u8 => 0x2fu8,
        0x16u8 => 0xffu8,
        0x17u8 => 0x87u8,
        0x18u8 => 0x34u8,
        0x19u8 => 0x8eu8,
        0x1au8 => 0x43u8,
        0x1bu8 => 0x44u8,
        0x1cu8 => 0xc4u8,
        0x1du8 => 0xdeu8,
        0x1eu8 => 0xe9u8,
        0x1fu8 => 0xcbu8,
        0x20u8 => 0x54u8,
        0x21u8 => 0x7bu8,
        0x22u8 => 0x94u8,
        0x23u8 => 0x32u8,
        0x24u8 => 0xa6u8,
        0x25u8 => 0xc2u8,
        0x26u8 => 0x23u8,
        0x27u8 => 0x3du8,
        0x28u8 => 0xeeu8,
        0x29u8 => 0x4cu8,
        0x2au8 => 0x95u8,
        0x2bu8 => 0x0bu8,
        0x2cu8 => 0x42u8,
        0x2du8 => 0xfau8,
        0x2eu8 => 0xc3u8,
        0x2fu8 => 0x4eu8,
        0x30u8 => 0x08u8,
        0x31u8 => 0x2eu8,
        0x32u8 => 0xa1u8,
        0x33u8 => 0x66u8,
        0x34u8 => 0x28u8,
        0x35u8 => 0xd9u8,
        0x36u8 => 0x24u8,
        0x37u8 => 0xb2u8,
        0x38u8 => 0x76u8,
        0x39u8 => 0x5bu8,
        0x3au8 => 0xa2u8,
        0x3bu8 => 0x49u8,
        0x3cu8 => 0x6du8,
        0x3du8 => 0x8bu8,
        0x3eu8 => 0xd1u8,
        0x3fu8 => 0x25u8,
        0x40u8 => 0x72u8,
        0x41u8 => 0xf8u8,
        0x42u8 => 0xf6u8,
        0x43u8 => 0x64u8,
        0x44u8 => 0x86u8,
        0x45u8 => 0x68u8,
        0x46u8 => 0x98u8,
        0x47u8 => 0x16u8,
        0x48u8 => 0xd4u8,
        0x49u8 => 0xa4u8,
        0x4au8 => 0x5cu8,
        0x4bu8 => 0xccu8,
        0x4cu8 => 0x5du8,
        0x4du8 => 0x65u8,
        0x4eu8 => 0xb6u8,
        0x4fu8 => 0x92u8,
        0x50u8 => 0x6cu8,
        0x51u8 => 0x70u8,
        0x52u8 => 0x48u8,
        0x53u8 => 0x50u8,
        0x54u8 => 0xfdu8,
        0x55u8 => 0xedu8,
        0x56u8 => 0xb9u8,
        0x57u8 => 0xdau8,
        0x58u8 => 0x5eu8,
        0x59u8 => 0x15u8,
        0x5au8 => 0x46u8,
        0x5bu8 => 0x57u8,
        0x5cu8 => 0xa7u8,
        0x5du8 => 0x8du8,
        0x5eu8 => 0x9du8,
        0x5fu8 => 0x84u8,
        0x60u8 => 0x90u8,
        0x61u8 => 0xd8u8,
        0x62u8 => 0xabu8,
        0x63u8 => 0x00u8,
        0x64u8 => 0x8cu8,
        0x65u8 => 0xbcu8,
        0x66u8 => 0xd3u8,
        0x67u8 => 0x0au8,
        0x68u8 => 0xf7u8,
        0x69u8 => 0xe4u8,
        0x6au8 => 0x58u8,
        0x6bu8 => 0x05u8,
        0x6cu8 => 0xb8u8,
        0x6du8 => 0xb3u8,
        0x6eu8 => 0x45u8,
        0x6fu8 => 0x06u8,
        0x70u8 => 0xd0u8,
        0x71u8 => 0x2cu8,
        0x72u8 => 0x1eu8,
        0x73u8 => 0x8fu8,
        0x74u8 => 0xcau8,
        0x75u8 => 0x3fu8,
        0x76u8 => 0x0fu8,
        0x77u8 => 0x02u8,
        0x78u8 => 0xc1u8,
        0x79u8 => 0xafu8,
        0x7au8 => 0xbdu8,
        0x7bu8 => 0x03u8,
        0x7cu8 => 0x01u8,
        0x7du8 => 0x13u8,
        0x7eu8 => 0x8au8,
        0x7fu8 => 0x6bu8,
        0x80u8 => 0x3au8,
        0x81u8 => 0x91u8,
        0x82u8 => 0x11u8,
        0x83u8 => 0x41u8,
        0x84u8 => 0x4fu8,
        0x85u8 => 0x67u8,
        0x86u8 => 0xdcu8,
        0x87u8 => 0xeau8,
        0x88u8 => 0x97u8,
        0x89u8 => 0xf2u8,
        0x8au8 => 0xcfu8,
        0x8bu8 => 0xceu8,
        0x8cu8 => 0xf0u8,
        0x8du8 => 0xb4u8,
        0x8eu8 => 0xe6u8,
        0x8fu8 => 0x73u8,
        0x90u8 => 0x96u8,
        0x91u8 => 0xacu8,
        0x92u8 => 0x74u8,
        0x93u8 => 0x22u8,
        0x94u8 => 0xe7u8,
        0x95u8 => 0xadu8,
        0x96u8 => 0x35u8,
        0x97u8 => 0x85u8,
        0x98u8 => 0xe2u8,
        0x99u8 => 0xf9u8,
        0x9au8 => 0x37u8,
        0x9bu8 => 0xe8u8,
        0x9cu8 => 0x1cu8,
        0x9du8 => 0x75u8,
        0x9eu8 => 0xdfu8,
        0x9fu8 => 0x6eu8,
        0xa0u8 => 0x47u8,
        0xa1u8 => 0xf1u8,
        0xa2u8 => 0x1au8,
        0xa3u8 => 0x71u8,
        0xa4u8 => 0x1du8,
        0xa5u8 => 0x29u8,
        0xa6u8 => 0xc5u8,
        0xa7u8 => 0x89u8,
        0xa8u8 => 0x6fu8,
        0xa9u8 => 0xb7u8,
        0xaau8 => 0x62u8,
        0xabu8 => 0x0eu8,
        0xacu8 => 0xaau8,
        0xadu8 => 0x18u8,
        0xaeu8 => 0xbeu8,
        0xafu8 => 0x1bu8,
        0xb0u8 => 0xfcu8,
        0xb1u8 => 0x56u8,
        0xb2u8 => 0x3eu8,
        0xb3u8 => 0x4bu8,
        0xb4u8 => 0xc6u8,
        0xb5u8 => 0xd2u8,
        0xb6u8 => 0x79u8,
        0xb7u8 => 0x20u8,
        0xb8u8 => 0x9au8,
        0xb9u8 => 0xdbu8,
        0xbau8 => 0xc0u8,
        0xbbu8 => 0xfeu8,
        0xbcu8 => 0x78u8,
        0xbdu8 => 0xcdu8,
        0xbeu8 => 0x5au8,
        0xbfu8 => 0xf4u8,
        0xc0u8 => 0x1fu8,
        0xc1u8 => 0xddu8,
        0xc2u8 => 0xa8u8,
        0xc3u8 => 0x33u8,
        0xc4u8 => 0x88u8,
        0xc5u8 => 0x07u8,
        0xc6u8 => 0xc7u8,
        0xc7u8 => 0x31u8,
        0xc8u8 => 0xb1u8,
        0xc9u8 => 0x12u8,
        0xcau8 => 0x10u8,
        0xcbu8 => 0x59u8,
        0xccu8 => 0x27u8,
        0xcdu8 => 0x80u8,
        0xceu8 => 0xecu8,
        0xcfu8 => 0x5fu8,
        0xd0u8 => 0x60u8,
        0xd1u8 => 0x51u8,
        0xd2u8 => 0x7fu8,
        0xd3u8 => 0xa9u8,
        0xd4u8 => 0x19u8,
        0xd5u8 => 0xb5u8,
        0xd6u8 => 0x4au8,
        0xd7u8 => 0x0du8,
        0xd8u8 => 0x2du8,
        0xd9u8 => 0xe5u8,
        0xdau8 => 0x7au8,
        0xdbu8 => 0x9fu8,
        0xdcu8 => 0x93u8,
        0xddu8 => 0xc9u8,
        0xdeu8 => 0x9cu8,
        0xdfu8 => 0xefu8,
        0xe0u8 => 0xa0u8,
        0xe1u8 => 0xe0u8,
        0xe2u8 => 0x3bu8,
        0xe3u8 => 0x4du8,
        0xe4u8 => 0xaeu8,
        0xe5u8 => 0x2au8,
        0xe6u8 => 0xf5u8,
        0xe7u8 => 0xb0u8,
        0xe8u8 => 0xc8u8,
        0xe9u8 => 0xebu8,
        0xeau8 => 0xbbu8,
        0xebu8 => 0x3cu8,
        0xecu8 => 0x83u8,
        0xedu8 => 0x53u8,
        0xeeu8 => 0x99u8,
        0xefu8 => 0x61u8,
        0xf0u8 => 0x17u8,
        0xf1u8 => 0x2bu8,
        0xf2u8 => 0x04u8,
        0xf3u8 => 0x7eu8,
        0xf4u8 => 0xbau8,
        0xf5u8 => 0x77u8,
        0xf6u8 => 0xd6u8,
        0xf7u8 => 0x26u8,
        0xf8u8 => 0xe1u8,
        0xf9u8 => 0x69u8,
        0xfau8 => 0x14u8,
        0xfbu8 => 0x63u8,
        0xfcu8 => 0x55u8,
        0xfdu8 => 0x21u8,
        0xfeu8 => 0x0cu8,
        0xffu8 => 0x7du8,
    }
}

/// The substitution layer applied to a whole state block.
pub open spec fn substitute_spec(s: Seq<u8>) -> Seq<u8> {
    Seq::new(16, |i: int| sub_byte_spec(s[i]))
}

/// The inverse substitution layer applied to a whole state block.
pub open spec fn inverse_substitute_spec(s: Seq<u8>) -> Seq<u8> {
    Seq::new(16, |i: int| inv_sub_byte_spec(s[i]))
}

/// Inverse substitution undoes substitution on every 16-byte block.
pub proof fn lemma_substitute_inverse(s: Seq<u8>)
    requires
        s.len() == 16,
    ensures
        inverse_substitute_spec(substitute_spec(s)) == s,
{
    assert forall|i: int| 0 <= i < 16 implies inverse_substitute_spec(substitute_spec(s))[i]
        == s[i] by {
        lemma_substitution_involution(s[i]);
    }
    assert(inverse_substitute_spec(substitute_spec(s)) =~= s);
}

/// Apply the S-box to every byte of the state.
pub fn substitute(state: &mut [u8; 16])
    ensures
        final(state)@ == substitute_spec(old(state)@),
{
    for i in 0..16
        invariant
            forall|j: int| 0 <= j < i ==> state@[j] == sub_byte_spec(old(state)@[j]),
            forall|j: int| i <= j < 16 ==> state@[j] == old(state)@[j],
    {
        state[i] = sub_byte(state[i]);
    }
    assert(state@ =~= substitute_spec(old(state)@));
}

/// Apply the inverse S-box to every byte of the state.
pub fn inverse_substitute(state: &mut [u8; 16])
    ensures
        final(state)@ == inverse_substitute_spec(old(state)@),
{
    for i in 0..16
        invariant
            forall|j: int| 0 <= j < i ==> state@[j] == inv_sub_byte_spec(old(state)@[j]),
            forall|j: int| i <= j < 16 ==> state@[j] == old(state)@[j],
    {
        state[i] = inv_sub_byte(state[i]);
    }
    assert(state@ =~= inverse_substitute_spec(old(state)@));
}

} // verus!
