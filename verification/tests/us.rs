use iab_gpp::sections::us_common::{Consent, MspaMode, Notice, OptOut};
use iab_gpp::sections::usca::{self, UsCa};
use iab_gpp::sections::usco::{self, UsCo};
use iab_gpp::sections::usia::UsIa;
use iab_gpp::sections::usnat::{self, UsNat};
use iab_gpp::sections::usor::UsOr;
use iab_gpp::sections::uspv1::{Char, UspV1};
use iab_gpp::sections::usut::{self, UsUt};
use iab_gpp::sections::SectionDecodeError;
use std::str::FromStr;

fn ca_sensitive(v: OptOut) -> usca::SensitiveDataProcessing {
    usca::SensitiveDataProcessing {
        identification_documents: v,
        financial_data: v,
        precise_geolocation: v,
        origin_beliefs_or_union: v,
        mail_email_or_text_messages: v,
        genetic_data: v,
        biometric_unique_identification: v,
        health_data: v,
        sex_life_or_sexual_orientation: v,
    }
}

#[test]
fn usca_parse() {
    let test_cases = [
        (
            "BAAAAACA",
            UsCa {
                core: usca::Core {
                    sale_opt_out_notice: Notice::NotApplicable,
                    sharing_opt_out_notice: Notice::NotApplicable,
                    sensitive_data_limit_use_notice: Notice::NotApplicable,
                    sale_opt_out: OptOut::NotApplicable,
                    sharing_opt_out: OptOut::NotApplicable,
                    sensitive_data_processing: ca_sensitive(OptOut::NotApplicable),
                    known_child_sensitive_data_consents: usca::KnownChildSensitiveDataConsents {
                        sell_personal_information: Consent::NotApplicable,
                        share_personal_information: Consent::NotApplicable,
                    },
                    personal_data_consent: Consent::NotApplicable,
                    mspa_covered_transaction: false,
                    mspa_opt_out_option_mode: MspaMode::NotApplicable,
                    mspa_service_provider_mode: MspaMode::NotApplicable,
                },
                gpc: None,
            },
        ),
        (
            "BVVVVVVY",
            UsCa {
                core: usca::Core {
                    sale_opt_out_notice: Notice::Provided,
                    sharing_opt_out_notice: Notice::Provided,
                    sensitive_data_limit_use_notice: Notice::Provided,
                    sale_opt_out: OptOut::OptedOut,
                    sharing_opt_out: OptOut::OptedOut,
                    sensitive_data_processing: ca_sensitive(OptOut::OptedOut),
                    known_child_sensitive_data_consents: usca::KnownChildSensitiveDataConsents {
                        sell_personal_information: Consent::NoConsent,
                        share_personal_information: Consent::NoConsent,
                    },
                    personal_data_consent: Consent::NoConsent,
                    mspa_covered_transaction: true,
                    mspa_opt_out_option_mode: MspaMode::Yes,
                    mspa_service_provider_mode: MspaMode::No,
                },
                gpc: None,
            },
        ),
        (
            "BVqqqqpY.YA",
            UsCa {
                core: usca::Core {
                    sale_opt_out_notice: Notice::Provided,
                    sharing_opt_out_notice: Notice::Provided,
                    sensitive_data_limit_use_notice: Notice::Provided,
                    sale_opt_out: OptOut::DidNotOptOut,
                    sharing_opt_out: OptOut::DidNotOptOut,
                    sensitive_data_processing: ca_sensitive(OptOut::DidNotOptOut),
                    known_child_sensitive_data_consents: usca::KnownChildSensitiveDataConsents {
                        sell_personal_information: Consent::Consent,
                        share_personal_information: Consent::Consent,
                    },
                    personal_data_consent: Consent::Consent,
                    mspa_covered_transaction: true,
                    mspa_opt_out_option_mode: MspaMode::Yes,
                    mspa_service_provider_mode: MspaMode::No,
                },
                gpc: Some(true),
            },
        ),
    ];

    for (s, expected) in test_cases {
        let actual = UsCa::from_str(s).unwrap();
        assert_eq!(actual, expected);
        assert!(actual.validate().is_ok());
    }
}

#[test]
fn usca_error() {
    assert!(matches!(UsCa::from_str(""), Err(SectionDecodeError::Read(_))));
    assert!(matches!(UsCa::from_str("123"), Err(SectionDecodeError::UnknownSegmentVersion { .. })));
    assert!(matches!(
        UsCa::from_str("CVVVVVVVVWA.YA"),
        Err(SectionDecodeError::UnknownSegmentVersion { .. })
    ));
    assert!(matches!(
        UsCa::from_str("BVVVVVVVVWA.AA"),
        Err(SectionDecodeError::UnknownSegmentType { .. })
    ));
}

#[test]
fn usca_validation_errors() {
    // notices given but the service provider mode not applicable
    let mut s = UsCa::from_str("BVVVVVVY").unwrap();
    s.core.mspa_service_provider_mode = MspaMode::NotApplicable;
    let errors = s.validate().unwrap_err();
    assert_eq!(errors.len(), 3);
    assert_eq!(errors[0].field1, ("mspa_service_provider_mode", 0));
    assert_eq!(errors[0].field2, ("sale_opt_out_notice", 1));
    assert_eq!(errors[1].field2, ("sharing_opt_out_notice", 1));
    assert_eq!(errors[2].field2, ("sensitive_data_limit_use_notice", 1));

    // a notice not given with a recorded choice other than an opt-out
    let mut s = UsCa::from_str("BVqqqqpY.YA").unwrap();
    s.core.sale_opt_out_notice = Notice::NotProvided;
    let errors = s.validate().unwrap_err();
    assert_eq!(errors.len(), 1);
    assert_eq!(errors[0].field1, ("sale_opt_out_notice", 2));
    assert_eq!(errors[0].field2, ("sale_opt_out", 2));
}

#[test]
fn usca_invalid_covered_transaction() {
    // "BAAAAAAA": every code is zero, so is the covered transaction field
    match UsCa::from_str("BAAAAAAA") {
        Err(SectionDecodeError::InvalidFieldValue { expected, found }) => {
            assert_eq!(expected, "1 or 2");
            assert_eq!(found, "0");
        }
        other => panic!("unexpected {:?}", other),
    }
}

fn co_sensitive(v: Consent) -> usco::SensitiveDataProcessing {
    usco::SensitiveDataProcessing {
        racial_or_ethnic_origin: v,
        religious_beliefs: v,
        health_condition_or_diagnosis: v,
        sex_life_or_sexual_orientation: v,
        citizenship_data: v,
        genetic_unique_identification: v,
        biometric_unique_identification: v,
    }
}

#[test]
fn usco_parse() {
    let provided = usco::Core {
        sharing_notice: Notice::Provided,
        sale_opt_out_notice: Notice::Provided,
        targeted_advertising_opt_out_notice: Notice::Provided,
        sale_opt_out: OptOut::OptedOut,
        targeted_advertising_opt_out: OptOut::OptedOut,
        sensitive_data_processing: co_sensitive(Consent::NoConsent),
        known_child_sensitive_data_consents: Consent::NoConsent,
        mspa_covered_transaction: true,
        mspa_opt_out_option_mode: MspaMode::Yes,
        mspa_service_provider_mode: MspaMode::No,
    };
    let test_cases = [
        (
            "BAAAAEA",
            UsCo {
                core: usco::Core {
                    sharing_notice: Notice::NotApplicable,
                    sale_opt_out_notice: Notice::NotApplicable,
                    targeted_advertising_opt_out_notice: Notice::NotApplicable,
                    sale_opt_out: OptOut::NotApplicable,
                    targeted_advertising_opt_out: OptOut::NotApplicable,
                    sensitive_data_processing: co_sensitive(Consent::NotApplicable),
                    known_child_sensitive_data_consents: Consent::NotApplicable,
                    mspa_covered_transaction: true,
                    mspa_opt_out_option_mode: MspaMode::NotApplicable,
                    mspa_service_provider_mode: MspaMode::NotApplicable,
                },
                gpc: None,
            },
        ),
        ("BVVVVVg", UsCo { core: provided, gpc: None }),
        ("BVVVVVg.YA", UsCo { core: provided, gpc: Some(true) }),
    ];

    for (s, expected) in test_cases {
        let actual = UsCo::from_str(s).unwrap();
        assert_eq!(actual, expected);
        assert!(actual.validate().is_ok());
    }
}

#[test]
fn usco_error() {
    assert!(matches!(UsCo::from_str(""), Err(SectionDecodeError::Read(_))));
    assert!(matches!(UsCo::from_str("123"), Err(SectionDecodeError::UnknownSegmentVersion { .. })));
    assert!(matches!(
        UsCo::from_str("CVVVVVg.YA"),
        Err(SectionDecodeError::UnknownSegmentVersion { .. })
    ));
    assert!(matches!(
        UsCo::from_str("BVVVVVg.AA"),
        Err(SectionDecodeError::UnknownSegmentType { .. })
    ));
    assert!(matches!(
        UsCo::from_str("BVVVVVg.YA.YA"),
        Err(SectionDecodeError::DuplicateSegmentType { segment_type: 1 })
    ));
}

fn nat_v1(n: Notice, o: OptOut, c: Consent, covered: bool, oo: MspaMode, sp: MspaMode) -> usnat::CoreV1 {
    usnat::CoreV1 {
        sharing_notice: n,
        sale_opt_out_notice: n,
        sharing_opt_out_notice: n,
        targeted_advertising_opt_out_notice: n,
        sensitive_data_processing_opt_out_notice: n,
        sensitive_data_limit_use_notice: n,
        sale_opt_out: o,
        sharing_opt_out: o,
        targeted_advertising_opt_out: o,
        sensitive_data_processing: usnat::SensitiveDataProcessingV1 {
            racial_or_ethnic_origin: c,
            religious_or_philosophical_beliefs: c,
            health_data: c,
            sex_life_or_sexual_orientation: c,
            citizenship_or_immigration_status: c,
            genetic_unique_identification: c,
            biometric_unique_identification: c,
            precise_geolocation_data: c,
            identification_documents: c,
            financial_data: c,
            union_membership: c,
            mail_email_or_text_messages: c,
        },
        known_child_sensitive_data_consents: usnat::KnownChildSensitiveDataConsentsV1 {
            from_13_to_16: c,
            under_13: c,
        },
        personal_data_consent: c,
        mspa_covered_transaction: covered,
        mspa_opt_out_option_mode: oo,
        mspa_service_provider_mode: sp,
    }
}

#[test]
fn usnat_parse() {
    let na = nat_v1(
        Notice::NotApplicable,
        OptOut::NotApplicable,
        Consent::NotApplicable,
        true,
        MspaMode::NotApplicable,
        MspaMode::NotApplicable,
    );
    let yes = nat_v1(Notice::Provided, OptOut::OptedOut, Consent::NoConsent, true, MspaMode::Yes, MspaMode::No);
    let test_cases = [
        ("BAAAAAAAAQA", UsNat { core: usnat::Core::V1(na), gpc: None }),
        ("BVVVVVVVVWA", UsNat { core: usnat::Core::V1(yes), gpc: None }),
        ("BVVVVVVVVWA.YA", UsNat { core: usnat::Core::V1(yes), gpc: Some(true) }),
    ];

    for (s, expected) in test_cases {
        let actual = UsNat::from_str(s).unwrap();
        assert_eq!(actual, expected);
        assert!(actual.validate().is_ok());
    }
}

#[test]
fn usnat_v2_parse() {
    // "CAAAAAAAAAWA": version 2, then 27 zero codes; the 'W' (010110) holds
    // two codes of 1 and the covered transaction code 2.
    let c = Consent::NotApplicable;
    let v2 = usnat::CoreV2 {
        sharing_notice: Notice::NotApplicable,
        sale_opt_out_notice: Notice::NotApplicable,
        sharing_opt_out_notice: Notice::NotApplicable,
        targeted_advertising_opt_out_notice: Notice::NotApplicable,
        sensitive_data_processing_opt_out_notice: Notice::NotApplicable,
        sensitive_data_limit_use_notice: Notice::NotApplicable,
        sale_opt_out: OptOut::NotApplicable,
        sharing_opt_out: OptOut::NotApplicable,
        targeted_advertising_opt_out: OptOut::NotApplicable,
        sensitive_data_processing: usnat::SensitiveDataProcessingV2 {
            racial_or_ethnic_origin: c,
            religious_or_philosophical_beliefs: c,
            health_data: c,
            sex_life_or_sexual_orientation: c,
            citizenship_or_immigration_status: c,
            genetic_unique_identification: c,
            biometric_unique_identification: c,
            precise_geolocation_data: c,
            identification_documents: c,
            financial_account_data: c,
            union_membership: c,
            mail_email_or_text_messages: c,
            general_health_data: c,
            crime_victim_status: c,
            national_origin: c,
            transgender_or_nonbinary_status: c,
        },
        known_child_sensitive_data_consents: usnat::KnownChildSensitiveDataConsentsV2 {
            process_sensitive_data_from_13_to_16: c,
            process_sensitive_data_under_13: c,
            process_personal_data_from_16_to_17: Consent::NoConsent,
        },
        personal_data_consent: Consent::NoConsent,
        mspa_covered_transaction: false,
        mspa_opt_out_option_mode: MspaMode::NotApplicable,
        mspa_service_provider_mode: MspaMode::NotApplicable,
    };
    let actual = UsNat::from_str("CAAAAAAAAAWA.Q").unwrap();
    assert_eq!(actual, UsNat { core: usnat::Core::V2(v2), gpc: Some(false) });
    assert!(actual.validate().is_ok());
}

#[test]
fn usnat_error() {
    assert!(matches!(UsNat::from_str(""), Err(SectionDecodeError::Read(_))));
    assert!(matches!(UsNat::from_str("123"), Err(SectionDecodeError::UnknownSegmentVersion { .. })));
    assert!(matches!(
        UsNat::from_str("gqgkgAAAAEA"),
        Err(SectionDecodeError::UnknownSegmentVersion { .. })
    ));
    assert!(matches!(
        UsNat::from_str("BVVVVVVVVWA.AA"),
        Err(SectionDecodeError::UnknownSegmentType { .. })
    ));
}

#[test]
fn usut_parse() {
    let test_cases = [
        (
            "BAAAAAQA",
            UsUt {
                core: usut::Core {
                    sharing_notice: Notice::NotApplicable,
                    sale_opt_out_notice: Notice::NotApplicable,
                    targeted_advertising_opt_out_notice: Notice::NotApplicable,
                    sensitive_data_processing_opt_out_notice: Notice::NotApplicable,
                    sale_opt_out: OptOut::NotApplicable,
                    targeted_advertising_opt_out: OptOut::NotApplicable,
                    sensitive_data_processing: usut::SensitiveDataProcessing {
                        racial_or_ethnic_origin: Consent::NotApplicable,
                        religious_beliefs: Consent::NotApplicable,
                        sexual_orientation: Consent::NotApplicable,
                        citizenship_or_immigration_status: Consent::NotApplicable,
                        health_data: Consent::NotApplicable,
                        genetic_unique_identification: Consent::NotApplicable,
                        biometric_unique_identification: Consent::NotApplicable,
                        specific_geolocation_data: Consent::NotApplicable,
                    },
                    known_child_sensitive_data_consents: Consent::NotApplicable,
                    mspa_covered_transaction: true,
                    mspa_opt_out_option_mode: MspaMode::NotApplicable,
                    mspa_service_provider_mode: MspaMode::NotApplicable,
                },
            },
        ),
        (
            "BVVVVVmA",
            UsUt {
                core: usut::Core {
                    sharing_notice: Notice::Provided,
                    sale_opt_out_notice: Notice::Provided,
                    targeted_advertising_opt_out_notice: Notice::Provided,
                    sensitive_data_processing_opt_out_notice: Notice::Provided,
                    sale_opt_out: OptOut::OptedOut,
                    targeted_advertising_opt_out: OptOut::OptedOut,
                    sensitive_data_processing: usut::SensitiveDataProcessing {
                        racial_or_ethnic_origin: Consent::NoConsent,
                        religious_beliefs: Consent::NoConsent,
                        sexual_orientation: Consent::NoConsent,
                        citizenship_or_immigration_status: Consent::NoConsent,
                        health_data: Consent::NoConsent,
                        genetic_unique_identification: Consent::NoConsent,
                        biometric_unique_identification: Consent::NoConsent,
                        specific_geolocation_data: Consent::NoConsent,
                    },
                    known_child_sensitive_data_consents: Consent::NoConsent,
                    mspa_covered_transaction: false,
                    mspa_opt_out_option_mode: MspaMode::Yes,
                    mspa_service_provider_mode: MspaMode::No,
                },
            },
        ),
    ];

    for (s, expected) in test_cases {
        let actual = UsUt::from_str(s).unwrap();
        assert_eq!(actual, expected);
        assert!(actual.validate().is_ok());
    }
}

#[test]
fn usut_error() {
    assert!(matches!(UsUt::from_str(""), Err(SectionDecodeError::Read(_))));
    assert!(matches!(UsUt::from_str("123"), Err(SectionDecodeError::UnknownSegmentVersion { .. })));
    assert!(matches!(
        UsUt::from_str("CVVVVVVVVWA"),
        Err(SectionDecodeError::UnknownSegmentVersion { .. })
    ));
}

#[test]
fn uspv1_parse() {
    let cases = [
        ("1YN-", Char::Yes, Char::No, Char::NotApplicable),
        ("1NNN", Char::No, Char::No, Char::No),
        ("1YYY", Char::Yes, Char::Yes, Char::Yes),
    ];
    for (s, a, b, c) in cases {
        assert_eq!(
            UspV1::from_str(s).unwrap(),
            UspV1 { opt_out_notice: a, opt_out_sale: b, lspa_covered: c }
        );
    }
}

#[test]
fn uspv1_error() {
    assert!(matches!(
        UspV1::from_str("ZYN-"),
        Err(SectionDecodeError::InvalidCharacter { character: 'Z', .. })
    ));
    assert!(matches!(
        UspV1::from_str("2YN-"),
        Err(SectionDecodeError::InvalidSectionVersion { expected: 1, found: 2 })
    ));
    assert!(matches!(UspV1::from_str(""), Err(SectionDecodeError::UnexpectedEndOfString(_))));
    assert!(matches!(UspV1::from_str("1"), Err(SectionDecodeError::UnexpectedEndOfString(_))));
    assert!(matches!(UspV1::from_str("1N"), Err(SectionDecodeError::UnexpectedEndOfString(_))));
    assert!(matches!(
        UspV1::from_str("1A"),
        Err(SectionDecodeError::InvalidCharacter { character: 'A', .. })
    ));
}

#[test]
fn usor_parse() {
    let s = UsOr::from_str("BVVVVVVVY.YA").unwrap();
    assert_eq!(s.core.processing_notice, Notice::Provided);
    assert_eq!(s.core.targeted_advertising_opt_out, OptOut::OptedOut);
    assert_eq!(s.core.sensitive_data_processing.precise_geolocation_data, Consent::NoConsent);
    assert_eq!(s.core.known_child_sensitive_data_consents.process_personal_data_from_13_to_16, Consent::NoConsent);
    assert_eq!(s.core.additional_data_processing_consent, Consent::NoConsent);
    assert!(s.core.mspa_covered_transaction);
    assert_eq!(s.core.mspa_opt_out_option_mode, MspaMode::Yes);
    assert_eq!(s.core.mspa_service_provider_mode, MspaMode::No);
    assert_eq!(s.gpc, Some(true));
}

#[test]
fn usia_parse() {
    let s = UsIa::from_str("BVVVVVW").unwrap();
    assert_eq!(s.core.sensitive_data_optout_notice, Notice::Provided);
    assert_eq!(s.core.sale_opt_out, OptOut::OptedOut);
    assert_eq!(s.core.sensitive_data_processing.citizenship_status, Consent::NoConsent);
    assert_eq!(s.core.known_child_sensitive_data_consents, Consent::NoConsent);
    assert!(s.core.mspa_covered_transaction);
    assert_eq!(s.core.mspa_opt_out_option_mode, MspaMode::Yes);
    assert_eq!(s.core.mspa_service_provider_mode, MspaMode::No);
    assert_eq!(s.gpc, None);
}

#[test]
fn codes_read_back() {
    for n in [Notice::NotApplicable, Notice::Provided, Notice::NotProvided] {
        assert_eq!(Notice::from_code(n.to_u8()), n);
    }
    for o in [OptOut::NotApplicable, OptOut::OptedOut, OptOut::DidNotOptOut] {
        assert_eq!(OptOut::from_code(o.to_u8()), o);
    }
    for c in [Consent::NotApplicable, Consent::NoConsent, Consent::Consent] {
        assert_eq!(Consent::from_code(c.to_u8()), c);
    }
    for m in [MspaMode::NotApplicable, MspaMode::Yes, MspaMode::No] {
        assert_eq!(MspaMode::from_code(m.to_u8()), m);
    }
    // a code with no meaning reads as "not applicable"
    assert_eq!(Notice::from_code(3), Notice::NotApplicable);
}

#[test]
fn invalid_character_in_segment() {
    // the whole segment is decoded before it is read
    assert!(matches!(
        UsCo::from_str("A#"),
        Err(SectionDecodeError::DecodeSegment(iab_gpp::encoding::base64::DecodeError::InvalidByte(1, 35)))
    ));
    // an invalid character after all the bits that would be read is refused too
    assert!(matches!(
        UsCo::from_str("BVVVVVg="),
        Err(SectionDecodeError::DecodeSegment(iab_gpp::encoding::base64::DecodeError::InvalidByte(7, 61)))
    ));
    // so is one in an optional segment
    assert!(matches!(
        UsCo::from_str("BVVVVVg.Y#"),
        Err(SectionDecodeError::DecodeSegment(iab_gpp::encoding::base64::DecodeError::InvalidByte(1, 35)))
    ));
    assert!(matches!(
        UsUt::from_str("BVVVVVmA!"),
        Err(SectionDecodeError::DecodeSegment(iab_gpp::encoding::base64::DecodeError::InvalidByte(8, 33)))
    ));
}
