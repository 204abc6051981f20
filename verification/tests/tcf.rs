use iab_gpp::sections::tcfcav1;
use iab_gpp::sections::tcfcav1::TcfCaV1;
use iab_gpp::sections::tcfeuv1::TcfEuV1;
use iab_gpp::sections::tcfeuv2;
use iab_gpp::sections::tcfeuv2::TcfEuV2;
use iab_gpp::sections::SectionDecodeError;
use std::str::FromStr;

#[test]
fn basic() {
    let actual = TcfCaV1::from_str("BPXuQIAPXuQIAAfKABENB-CgAAAAAAAAAAAAAAAA").unwrap();
    let expected = TcfCaV1 {
        core: tcfcav1::Core {
            created: 1650412800,
            last_updated: 1650412800,
            cmp_id: 31,
            cmp_version: 640,
            consent_screen: 1,
            consent_language: "EN".to_string(),
            vendor_list_version: 126,
            policy_version: 2,
            use_non_standard_stacks: true,
            special_feature_express_consents: Default::default(),
            purpose_express_consents: Default::default(),
            purpose_implied_consents: Default::default(),
            vendor_express_consents: Default::default(),
            vendor_implied_consents: Default::default(),
            pub_restrictions: Default::default(),
        },
        disclosed_vendors: None,
        publisher_purposes: None,
    };

    assert_eq!(actual, expected);
}

#[test]
fn tcfcav1_with_publisher_purposes() {
    let actual = TcfCaV1::from_str("BPXuQIAPXuQIAAfKABENB-CgAAAAAAAAAAAAAAAA.YAAAAAAAAAA").unwrap();
    let expected = TcfCaV1 {
        core: tcfcav1::Core {
            created: 1650412800,
            last_updated: 1650412800,
            cmp_id: 31,
            cmp_version: 640,
            consent_screen: 1,
            consent_language: "EN".to_string(),
            vendor_list_version: 126,
            policy_version: 2,
            use_non_standard_stacks: true,
            special_feature_express_consents: Default::default(),
            purpose_express_consents: Default::default(),
            purpose_implied_consents: Default::default(),
            vendor_express_consents: Default::default(),
            vendor_implied_consents: Default::default(),
            pub_restrictions: Default::default(),
        },
        disclosed_vendors: None,
        publisher_purposes: Some(tcfcav1::PublisherPurposes {
            purpose_express_consents: Default::default(),
            purpose_implied_consents: Default::default(),
            custom_purpose_express_consents: Default::default(),
            custom_purpose_implied_consents: Default::default(),
        }),
    };

    assert_eq!(actual, expected);
}

#[test]
fn tcfcav1_error() {
    assert!(matches!(TcfCaV1::from_str("BPX"), Err(SectionDecodeError::Read(_))));
    assert!(matches!(TcfCaV1::from_str(""), Err(SectionDecodeError::Read(_))));
}

#[test]
fn full_str() {
    let actual =
        TcfCaV1::from_str("BQMC4oAQMC4oAPoABABGB0CYAf8AAf8AAAqdA-AAUABwAFQALQAaABLACgAF0ANoAdwA_QCCAIQARQAnwBWgC3AGUANMAc4A7gCAQElASYAnYBPwDFAGaAM6AZ8A14B_AEngJyAT-Ao8BUQCpQFvALhAXQAvcBf4DBwGYANNAbUA3EBxoDxAHmgPkAgIBCQCNwEpYJgAmCBNUCa4E5gJ-AUmApYBU4FToHwACgAOAAqABaADQAJYAUAAugBtADuAH6AQQBCACKAE-AK0AW4AygBpgDnAHcAQCAkoCTAE7AJ-AYoAzQBnQDPgGvAP4Ak8BOQCfwFHgKiAVKAt4BcIC6AF7gL_AYOAzABpoDagG4gONAeIA80B8gEBAISARuAlLBMAEwQJqgTXAnMBPwCkwFLAKnAAAA.YAAAAAAAAAA").unwrap();
    let vendors = [
        10, 28, 42, 45, 52, 75, 80, 93, 109, 119, 126, 130, 131, 132, 138, 159, 173, 183, 202, 211, 231, 238,
        256, 293, 294, 315, 319, 394, 410, 413, 415, 431, 508, 591, 626, 639, 655, 674, 677, 734, 737, 744,
        759, 767, 775, 816, 845, 874, 881, 909, 964, 973, 996, 1028, 1060, 1134, 1189, 1216, 1217, 1237,
        1239, 1254, 1276, 1318, 1324, 1358,
    ];
    let expected = TcfCaV1 {
        core: tcfcav1::Core {
            created: 1738195200,
            last_updated: 1738195200,
            cmp_id: 1000,
            cmp_version: 1,
            consent_screen: 0,
            consent_language: "BG".to_string(),
            vendor_list_version: 116,
            policy_version: 2,
            use_non_standard_stacks: false,
            special_feature_express_consents: [1, 2].into(),
            purpose_express_consents: [1, 2, 3, 4, 5, 6, 7, 8, 9].into(),
            purpose_implied_consents: [1, 2, 3, 4, 5, 6, 7, 8, 9].into(),
            vendor_express_consents: vendors.into(),
            vendor_implied_consents: vendors.into(),
            pub_restrictions: Default::default(),
        },
        disclosed_vendors: None,
        publisher_purposes: Some(tcfcav1::PublisherPurposes {
            purpose_express_consents: Default::default(),
            purpose_implied_consents: Default::default(),
            custom_purpose_express_consents: Default::default(),
            custom_purpose_implied_consents: Default::default(),
        }),
    };

    assert_eq!(actual, expected);
}

#[test]
fn tcfeuv1_success() {
    let actual = TcfEuV1::from_str("BOEFEAyOEFEAyAHABDENAI4AAAB9vABAASA").unwrap();
    let expected = TcfEuV1 {
        created: 1510082155,
        last_updated: 1510082155,
        cmp_id: 7,
        cmp_version: 1,
        consent_screen: 3,
        consent_language: "EN".to_string(),
        vendor_list_version: 8,
        purposes_allowed: [1, 2, 3].into(),
        vendor_consents: (1..=2011).filter(|&id| id != 9).collect(),
    };

    assert_eq!(actual, expected);
}

#[test]
fn tcfeuv1_error() {
    assert!(matches!(
        TcfEuV1::from_str("BO5a1L7O5a1L7AAABBENC2-AAAAtH"),
        Err(SectionDecodeError::Read(_))
    ));
    assert!(matches!(TcfEuV1::from_str(""), Err(SectionDecodeError::Read(_))));
    assert!(matches!(
        TcfEuV1::from_str("DOEFEAyOEFEAyAHABDENAI4AAAB9vABAASA"),
        Err(SectionDecodeError::UnknownSegmentVersion { segment_version: 3 })
    ));
}

fn eu_core(country: &str) -> tcfeuv2::Core {
    tcfeuv2::Core {
        created: 1582243059,
        last_updated: 1582243059,
        cmp_id: 27,
        cmp_version: 0,
        consent_screen: 0,
        consent_language: "EN".to_string(),
        vendor_list_version: 15,
        policy_version: 2,
        is_service_specific: false,
        use_non_standard_stacks: false,
        special_feature_optins: Default::default(),
        purpose_consents: [1, 2, 3].into(),
        purpose_legitimate_interests: Default::default(),
        purpose_one_treatment: false,
        publisher_country_code: country.to_string(),
        vendor_consents: [2, 6, 8].into(),
        vendor_legitimate_interests: [2, 6, 8].into(),
        publisher_restrictions: vec![],
    }
}

fn disclosed() -> std::collections::BTreeSet<u16> {
    [
        2, 6, 8, 12, 18, 23, 37, 42, 47, 48, 53, 61, 65, 66, 72, 88, 98, 127, 128, 129, 133, 153, 163, 192,
        205, 215, 224, 243, 248, 281, 294, 304, 350, 351, 358, 371, 422, 424, 440, 447, 467, 486, 498, 502,
        512, 516, 553, 556, 571, 587, 612, 613, 618, 626, 648, 653, 656, 657, 665, 676, 681, 683, 684, 686,
        687, 688, 690, 691, 694, 702, 703, 707, 708, 711, 712, 714, 716, 719, 720,
    ]
    .into()
}

fn eu_purposes() -> tcfeuv2::PublisherPurposes {
    tcfeuv2::PublisherPurposes {
        consents: [3, 16].into(),
        legitimate_interests: [1, 2, 3, 4, 5, 6, 7, 9, 10, 11, 12, 14, 15, 16, 17, 18, 19, 21, 22, 23, 24].into(),
        custom_consents: [1, 2, 4].into(),
        custom_legitimate_interests: [2, 4].into(),
    }
}

#[test]
fn core_only() {
    let actual = TcfEuV2::from_str("CPXxRfAPXxRfAAfKABENB-CgAAAAAAAAAAYgAAAAAAAA").unwrap();
    let expected = TcfEuV2 {
        core: tcfeuv2::Core {
            created: 1650492000,
            last_updated: 1650492000,
            cmp_id: 31,
            cmp_version: 640,
            consent_screen: 1,
            consent_language: "EN".to_string(),
            vendor_list_version: 126,
            policy_version: 2,
            is_service_specific: true,
            use_non_standard_stacks: false,
            special_feature_optins: Default::default(),
            purpose_consents: Default::default(),
            purpose_legitimate_interests: Default::default(),
            purpose_one_treatment: false,
            publisher_country_code: "DE".to_string(),
            vendor_consents: Default::default(),
            vendor_legitimate_interests: Default::default(),
            publisher_restrictions: vec![],
        },
        disclosed_vendors: None,
        allowed_vendors: None,
        publisher_purposes: None,
    };
    assert_eq!(actual, expected);
}

#[test]
fn with_disclosed_vendors() {
    let actual = TcfEuV2::from_str("COvFyGBOvFyGBAbAAAENAPCAAOAAAAAAAAAAAEEUACCKAAA.IFoEUQQgAIQwgIwQABAEAAAAOIAACAIAAAAQAIAgEAACEAAAAAgAQBAAAAAAAGBAAgAAAAAAAFAAECAAAgAAQARAEQAAAAAJAAIAAgAAAYQEAAAQmAgBC3ZAYzUw").unwrap();

    let expected = TcfEuV2 {
        core: eu_core("AA"),
        disclosed_vendors: Some(disclosed()),
        allowed_vendors: None,
        publisher_purposes: None,
    };

    assert_eq!(actual, expected);
}

#[test]
fn tcfeuv2_with_publisher_purposes() {
    let actual = TcfEuV2::from_str("COvFyGBOvFyGBAbAAAENAPCAAOAAAAAAAAAAAEEUACCKAAA.ZAAgH9794ulA").unwrap();

    let expected = TcfEuV2 {
        core: eu_core("AA"),
        disclosed_vendors: None,
        allowed_vendors: None,
        publisher_purposes: Some(eu_purposes()),
    };

    assert_eq!(actual, expected);
}

#[test]
fn with_all_segments() {
    let cases = [
        "COvFyGBOvFyGBAbAAAENAPCAAOAAAAAAAAAAAEEUACCKAAA.ZAAgH9794ulA.IFoEUQQgAIQwgIwQABAEAAAAOIAACAIAAAAQAIAgEAACEAAAAAgAQBAAAAAAAGBAAgAAAAAAAFAAECAAAgAAQARAEQAAAAAJAAIAAgAAAYQEAAAQmAgBC3ZAYzUw",
        "COvFyGBOvFyGBAbAAAENAPCAAOAAAAAAAAAAAEEUACCKAAA.IFoEUQQgAIQwgIwQABAEAAAAOIAACAIAAAAQAIAgEAACEAAAAAgAQBAAAAAAAGBAAgAAAAAAAFAAECAAAgAAQARAEQAAAAAJAAIAAgAAAYQEAAAQmAgBC3ZAYzUw.ZAAgH9794ulA",
    ];
    for s in cases {
        let expected = TcfEuV2 {
            core: eu_core("AA"),
            disclosed_vendors: Some(disclosed()),
            allowed_vendors: None,
            publisher_purposes: Some(eu_purposes()),
        };
        assert_eq!(TcfEuV2::from_str(s).unwrap(), expected);
    }
}

#[test]
fn tcfeuv2_duplicate_segment() {
    assert!(matches!(
        TcfEuV2::from_str("COvFyGBOvFyGBAbAAAENAPCAAOAAAAAAAAAAAEEUACCKAAA.ZAAgH9794ulA.ZAAgH9794ulA"),
        Err(SectionDecodeError::DuplicateSegmentType { segment_type: 3 })
    ));
}

#[test]
fn tcfeuv2_error() {
    assert!(matches!(TcfEuV2::from_str("CPX"), Err(SectionDecodeError::Read(_))));
    assert!(matches!(TcfEuV2::from_str(""), Err(SectionDecodeError::Read(_))));
    let versions = [
        "IFoEUQQgAIQwgIwQABAEAAAAOIAACAIAAAAQAIAgEAACEAAAAAgAQBAAAAAAAGBAAgAAAAAAAFAAECAAAgAAQARAEQAAAAAJAAIAAgAAAYQEAAAQmAgBC3ZAYzUw",
        "ZAAgH9794ulA",
        "IFoEUQQgAIQwgIwQABAEAAAAOIAACAIAAAAQAIAgEAACEAAAAAgAQBAAAAAAAGBAAgAAAAAAAFAAECAAAgAAQARAEQAAAAAJAAIAAgAAAYQEAAAQmAgBC3ZAYzUw.ZAAgH9794ulA",
        "ZAAgH9794ulA.IFoEUQQgAIQwgIwQABAEAAAAOIAACAIAAAAQAIAgEAACEAAAAAgAQBAAAAAAAGBAAgAAAAAAAFAAECAAAgAAQARAEQAAAAAJAAIAAgAAAYQEAAAQmAgBC3ZAYzUw",
    ];
    for s in versions {
        assert!(matches!(
            TcfEuV2::from_str(s),
            Err(SectionDecodeError::UnknownSegmentVersion { .. })
        ));
    }
}
