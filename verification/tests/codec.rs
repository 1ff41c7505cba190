use handsfree::codec::{
    EscoCodingFormat, HfpCodecBitId, HfpCodecFormat, HfpCodecId, BIT_CVSD, BIT_LC3, BIT_MSBC,
    FORMAT_ALL,
};
use handsfree::status::HfpStatus;

#[test]
fn codec_id_numbers_round_trip() {
    assert_eq!(HfpCodecId::from_u8(0), Some(HfpCodecId::NONE));
    assert_eq!(HfpCodecId::from_u8(1), Some(HfpCodecId::CVSD));
    assert_eq!(HfpCodecId::from_u8(2), Some(HfpCodecId::MSBC));
    assert_eq!(HfpCodecId::from_u8(3), Some(HfpCodecId::LC3));
    assert_eq!(HfpCodecId::from_u8(4), None);
    assert_eq!(HfpCodecId::LC3.to_u8(), 3);
}

#[test]
fn coding_format_numbers() {
    assert_eq!(EscoCodingFormat::from(0x05), EscoCodingFormat::MSBC);
    assert_eq!(EscoCodingFormat::from(0xff), EscoCodingFormat::VENDOR);
    assert_eq!(EscoCodingFormat::from_u8(0x06), Some(EscoCodingFormat::LC3));
    assert_eq!(EscoCodingFormat::from_u8(0x08), None);
    assert_eq!(EscoCodingFormat::from_u8(0xfe), None);
    assert_eq!(EscoCodingFormat::G729A.to_u8(), 0x07);
    let number: u8 = EscoCodingFormat::VENDOR.into();
    assert_eq!(number, 0xff);
    let number: u8 = u8::from(EscoCodingFormat::TRANSPARENT);
    assert_eq!(number, 0x03);
}

#[test]
fn codec_id_to_negotiation_bit() {
    assert_eq!(HfpCodecId::NONE.to_bit_id().to_i32(), 0);
    assert_eq!(HfpCodecId::CVSD.to_bit_id().to_i32(), BIT_CVSD);
    assert_eq!(HfpCodecId::MSBC.to_bit_id().to_i32(), BIT_MSBC);
    assert_eq!(HfpCodecId::LC3.to_bit_id().to_i32(), BIT_LC3);
}

#[test]
fn empty_bit_set_is_valid() {
    assert_eq!(HfpCodecBitId::try_from(0), Ok(HfpCodecBitId::none()));
    assert_eq!(HfpCodecFormat::try_from(0), Ok(HfpCodecFormat::none()));
    assert!(HfpCodecBitId::none().is_empty());
    assert!(HfpCodecFormat::none().is_empty());
}

#[test]
fn every_known_format_pattern_is_valid() {
    let mut raw: i32 = 0;
    while raw <= FORMAT_ALL {
        let set = HfpCodecFormat::try_from(raw);
        assert!(set.is_ok());
        assert_eq!(set.unwrap().to_i32(), raw);
        raw += 1;
    }
}

#[test]
fn foreign_format_bit_is_invalid_codec() {
    assert_eq!(HfpCodecFormat::try_from(0b1_0000), Err(HfpStatus::InvalidCodec));
    assert_eq!(HfpCodecFormat::try_from(0b1_0001), Err(HfpStatus::InvalidCodec));
    assert_eq!(HfpCodecFormat::try_from(-1), Err(HfpStatus::InvalidCodec));
    assert_eq!(HfpCodecFormat::try_from(i32::MIN), Err(HfpStatus::InvalidCodec));
    assert_eq!(HfpCodecFormat::try_from(i32::MAX), Err(HfpStatus::InvalidCodec));
    assert_eq!(HfpCodecFormat::from_bits(16), None);
}

#[test]
fn foreign_negotiation_bit_is_invalid_codec() {
    assert_eq!(HfpCodecBitId::try_from(0b1000), Err(HfpStatus::InvalidCodec));
    assert_eq!(HfpCodecBitId::try_from(-8), Err(HfpStatus::InvalidCodec));
    assert_eq!(HfpCodecBitId::from_bits(8), None);
    assert_eq!(HfpCodecBitId::try_from(0b111).unwrap().to_u8(), 7);
    assert_eq!(HfpCodecBitId::try_from(0b101).unwrap().to_i32(), 5);
}

#[test]
fn none_is_the_identity_of_union() {
    let mut raw: i32 = 0;
    while raw <= 7 {
        let set = HfpCodecBitId::from_bits(raw).unwrap();
        assert_eq!(set.union(&HfpCodecBitId::none()), set);
        assert_eq!(HfpCodecBitId::none().union(&set), set);
        raw += 1;
    }
    let formats = HfpCodecFormat::from_bits(0b1010).unwrap();
    assert_eq!(formats.union(&HfpCodecFormat::none()), formats);
}

#[test]
fn union_and_contains() {
    let both = HfpCodecBitId::cvsd().union(&HfpCodecBitId::lc3());
    assert_eq!(both.to_i32(), 0b101);
    assert!(both.contains(&HfpCodecBitId::cvsd()));
    assert!(both.contains(&HfpCodecBitId::lc3()));
    assert!(!both.contains(&HfpCodecBitId::msbc()));
    assert!(both.contains(&HfpCodecBitId::none()));
    assert!(!HfpCodecBitId::cvsd().contains(&both));

    let advertised = HfpCodecFormat::cvsd().union(&HfpCodecFormat::msbc());
    assert_eq!(advertised.to_i32(), 0b0101);
    assert!(advertised.contains(&HfpCodecFormat::msbc()));
    assert!(!advertised.contains(&HfpCodecFormat::lc3_transparent()));
    assert!(!advertised.contains(&HfpCodecFormat::msbc_transparent()));
}

#[test]
fn formats_to_negotiation_bits() {
    assert_eq!(HfpCodecFormat::none().to_bit_id(), HfpCodecBitId::none());
    assert_eq!(HfpCodecFormat::cvsd().to_bit_id(), HfpCodecBitId::cvsd());
    assert_eq!(HfpCodecFormat::msbc().to_bit_id(), HfpCodecBitId::msbc());
    assert_eq!(HfpCodecFormat::msbc_transparent().to_bit_id(), HfpCodecBitId::msbc());
    assert_eq!(HfpCodecFormat::lc3_transparent().to_bit_id(), HfpCodecBitId::lc3());
    let all = HfpCodecFormat::from_bits(0b1111).unwrap();
    assert_eq!(all.to_bit_id().to_i32(), 0b111);
    let wide = HfpCodecFormat::from_bits(0b0110).unwrap();
    assert_eq!(wide.to_bit_id().to_i32(), 0b010);
    let mixed = HfpCodecFormat::from_bits(0b1001).unwrap();
    assert_eq!(mixed.to_bit_id().to_i32(), 0b101);
}
