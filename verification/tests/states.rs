use iab_gpp::sections::us_common::{Consent, MspaMode, Notice, OptOut};
use iab_gpp::sections::usva;
use iab_gpp::sections::usct;
use iab_gpp::sections::usfl;
use iab_gpp::sections::usmt;
use iab_gpp::sections::ustx;
use iab_gpp::sections::usde;
use iab_gpp::sections::usne;
use iab_gpp::sections::usnh;
use iab_gpp::sections::usnj;
use iab_gpp::sections::ustn;
use iab_gpp::sections::{decode_section, Section, SectionDecodeError, SectionId};
use std::str::FromStr;

fn usva_expected(gpc: Option<bool>) -> usva::UsVa {
    let core = usva::Core {
        sharing_notice: Notice::Provided,
        sale_opt_out_notice: Notice::Provided,
        targeted_advertising_opt_out_notice: Notice::Provided,
        sale_opt_out: OptOut::OptedOut,
        targeted_advertising_opt_out: OptOut::OptedOut,
        sensitive_data_processing: usva::SensitiveDataProcessing {
            racial_or_ethnic_origin: Consent::Consent,
            religious_beliefs: Consent::Consent,
            health_data: Consent::Consent,
            sexual_orientation: Consent::Consent,
            citizenship_or_immigration_status: Consent::Consent,
            genetic_unique_identification: Consent::Consent,
            biometric_unique_identification: Consent::Consent,
            precise_geolocation_data: Consent::Consent,
        },
        known_child_sensitive_data_consents: Consent::NoConsent,
        mspa_covered_transaction: true,
        mspa_opt_out_option_mode: MspaMode::Yes,
        mspa_service_provider_mode: MspaMode::No,
    };
    let _ = gpc;
    usva::UsVa { core }
}

#[test]
fn usva_parse() {
    assert_eq!(usva::UsVa::from_str("BVWqqlY").unwrap(), usva_expected(None));
    assert!(matches!(usva::UsVa::from_str("BVWqqlY.YA"), Err(SectionDecodeError::DecodeSegment(_))));
    assert!(matches!(usva::UsVa::from_str("CVWqqlY"), Err(SectionDecodeError::UnknownSegmentVersion { segment_version: 2 })));
    assert!(matches!(usva::UsVa::from_str("B"), Err(SectionDecodeError::Read(_))));
    match decode_section(SectionId::UsVa, "BVWqqlY") {
        Ok(Section::UsVa(v)) => assert_eq!(v, usva_expected(None)),
        other => panic!("unexpected {:?}", other),
    }
    assert_eq!(decode_section(SectionId::UsVa, "BVWqqlY").unwrap().id(), SectionId::UsVa);
}

fn usct_expected(gpc: Option<bool>) -> usct::UsCt {
    let core = usct::Core {
        sharing_notice: Notice::Provided,
        sale_opt_out_notice: Notice::Provided,
        targeted_advertising_opt_out_notice: Notice::Provided,
        sale_opt_out: OptOut::OptedOut,
        targeted_advertising_opt_out: OptOut::OptedOut,
        sensitive_data_processing: usct::SensitiveDataProcessing {
            racial_or_ethnic_origin: Consent::Consent,
            religious_beliefs: Consent::Consent,
            health_condition_or_diagnosis: Consent::Consent,
            sex_life_or_sexual_orientation: Consent::Consent,
            citizenship_or_immigration_status: Consent::Consent,
            genetic_unique_identification: Consent::Consent,
            biometric_unique_identification: Consent::Consent,
            precise_geolocation_data: Consent::Consent,
        },
        known_child_sensitive_data_consents: usct::KnownChildSensitiveDataConsents {
            process_sensitive_data_from_known_child: Consent::NoConsent,
            sell_personal_data_from_13_to_16: Consent::NoConsent,
            process_personal_data_from_13_to_16: Consent::NoConsent,
        },
        mspa_covered_transaction: true,
        mspa_opt_out_option_mode: MspaMode::Yes,
        mspa_service_provider_mode: MspaMode::No,
    };
    usct::UsCt { core, gpc }
}

#[test]
fn usct_parse() {
    assert_eq!(usct::UsCt::from_str("BVWqqlVg").unwrap(), usct_expected(None));
    assert_eq!(usct::UsCt::from_str("BVWqqlVg.YA").unwrap(), usct_expected(Some(true)));
    assert!(matches!(usct::UsCt::from_str("BVWqqlVg.YA.YA"), Err(SectionDecodeError::DuplicateSegmentType { segment_type: 1 })));
    assert!(matches!(usct::UsCt::from_str("CVWqqlY"), Err(SectionDecodeError::UnknownSegmentVersion { segment_version: 2 })));
    assert!(matches!(usct::UsCt::from_str("B"), Err(SectionDecodeError::Read(_))));
    match decode_section(SectionId::UsCt, "BVWqqlVg") {
        Ok(Section::UsCt(v)) => assert_eq!(v, usct_expected(None)),
        other => panic!("unexpected {:?}", other),
    }
    assert_eq!(decode_section(SectionId::UsCt, "BVWqqlVg").unwrap().id(), SectionId::UsCt);
}

fn usfl_expected(gpc: Option<bool>) -> usfl::UsFl {
    let core = usfl::Core {
        processing_notice: Notice::Provided,
        sale_opt_out_notice: Notice::Provided,
        targeted_advertising_opt_out_notice: Notice::Provided,
        sale_opt_out: OptOut::OptedOut,
        targeted_advertising_opt_out: OptOut::OptedOut,
        sensitive_data_processing: usfl::SensitiveDataProcessing {
            racial_or_ethnic_origin: Consent::Consent,
            religious_beliefs: Consent::Consent,
            health_data: Consent::Consent,
            sex_life_or_sexual_orientation: Consent::Consent,
            citizenship_or_immigration_status: Consent::Consent,
            genetic_data: Consent::Consent,
            biometric_data: Consent::Consent,
            precise_geolocation_data: Consent::Consent,
        },
        known_child_sensitive_data_consents: usfl::KnownChildSensitiveDataConsents {
            process_sensitive_data_from_known_child: Consent::NoConsent,
            sell_personal_data_from_13_to_16: Consent::NoConsent,
            process_personal_data_from_13_to_16: Consent::NoConsent,
        },
        additional_data_processing_consent: Consent::Consent,
        mspa_covered_transaction: true,
        mspa_opt_out_option_mode: MspaMode::Yes,
        mspa_service_provider_mode: MspaMode::No,
    };
    let _ = gpc;
    usfl::UsFl { core }
}

#[test]
fn usfl_parse() {
    assert_eq!(usfl::UsFl::from_str("BVWqqlZY").unwrap(), usfl_expected(None));
    assert!(matches!(usfl::UsFl::from_str("BVWqqlZY.YA"), Err(SectionDecodeError::DecodeSegment(_))));
    assert!(matches!(usfl::UsFl::from_str("CVWqqlY"), Err(SectionDecodeError::UnknownSegmentVersion { segment_version: 2 })));
    assert!(matches!(usfl::UsFl::from_str("B"), Err(SectionDecodeError::Read(_))));
    match decode_section(SectionId::UsFl, "BVWqqlZY") {
        Ok(Section::UsFl(v)) => assert_eq!(v, usfl_expected(None)),
        other => panic!("unexpected {:?}", other),
    }
    assert_eq!(decode_section(SectionId::UsFl, "BVWqqlZY").unwrap().id(), SectionId::UsFl);
}

fn usmt_expected(gpc: Option<bool>) -> usmt::UsMt {
    let core = usmt::Core {
        sharing_notice: Notice::Provided,
        sale_opt_out_notice: Notice::Provided,
        targeted_advertising_opt_out_notice: Notice::Provided,
        sale_opt_out: OptOut::OptedOut,
        targeted_advertising_opt_out: OptOut::OptedOut,
        sensitive_data_processing: usmt::SensitiveDataProcessing {
            racial_or_ethnic_origin: Consent::Consent,
            religious_beliefs: Consent::Consent,
            health_data: Consent::Consent,
            sex_life_or_sexual_orientation: Consent::Consent,
            citizenship_or_immigration_status: Consent::Consent,
            genetic_data: Consent::Consent,
            biometric_data: Consent::Consent,
            precise_geolocation_data: Consent::Consent,
        },
        known_child_sensitive_data_consents: usmt::KnownChildSensitiveDataConsents {
            process_sensitive_data_from_known_child: Consent::NoConsent,
            sell_personal_data_from_13_to_16: Consent::NoConsent,
            process_personal_data_from_13_to_16: Consent::NoConsent,
        },
        additional_data_processing_consent: Consent::Consent,
        mspa_covered_transaction: true,
        mspa_opt_out_option_mode: MspaMode::Yes,
        mspa_service_provider_mode: MspaMode::No,
    };
    usmt::UsMt { core, gpc }
}

#[test]
fn usmt_parse() {
    assert_eq!(usmt::UsMt::from_str("BVWqqlZY").unwrap(), usmt_expected(None));
    assert_eq!(usmt::UsMt::from_str("BVWqqlZY.YA").unwrap(), usmt_expected(Some(true)));
    assert!(matches!(usmt::UsMt::from_str("BVWqqlZY.YA.YA"), Err(SectionDecodeError::DuplicateSegmentType { segment_type: 1 })));
    assert!(matches!(usmt::UsMt::from_str("CVWqqlY"), Err(SectionDecodeError::UnknownSegmentVersion { segment_version: 2 })));
    assert!(matches!(usmt::UsMt::from_str("B"), Err(SectionDecodeError::Read(_))));
    match decode_section(SectionId::UsMt, "BVWqqlZY") {
        Ok(Section::UsMt(v)) => assert_eq!(v, usmt_expected(None)),
        other => panic!("unexpected {:?}", other),
    }
    assert_eq!(decode_section(SectionId::UsMt, "BVWqqlZY").unwrap().id(), SectionId::UsMt);
}

fn ustx_expected(gpc: Option<bool>) -> ustx::UsTx {
    let core = ustx::Core {
        processing_notice: Notice::Provided,
        sale_opt_out_notice: Notice::Provided,
        targeted_advertising_opt_out_notice: Notice::Provided,
        sale_opt_out: OptOut::OptedOut,
        targeted_advertising_opt_out: OptOut::OptedOut,
        sensitive_data_processing: ustx::SensitiveDataProcessing {
            racial_or_ethnic_origin: Consent::Consent,
            religious_beliefs: Consent::Consent,
            health_data: Consent::Consent,
            sex_life_or_sexual_orientation: Consent::Consent,
            citizenship_or_immigration_status: Consent::Consent,
            genetic_data: Consent::Consent,
            biometric_data: Consent::Consent,
            precise_geolocation_data: Consent::Consent,
        },
        known_child_sensitive_data_consents: Consent::NoConsent,
        additional_data_processing_consent: Consent::Consent,
        mspa_covered_transaction: true,
        mspa_opt_out_option_mode: MspaMode::Yes,
        mspa_service_provider_mode: MspaMode::No,
    };
    ustx::UsTx { core, gpc }
}

#[test]
fn ustx_parse() {
    assert_eq!(ustx::UsTx::from_str("BVWqqmW").unwrap(), ustx_expected(None));
    assert_eq!(ustx::UsTx::from_str("BVWqqmW.YA").unwrap(), ustx_expected(Some(true)));
    assert!(matches!(ustx::UsTx::from_str("BVWqqmW.YA.YA"), Err(SectionDecodeError::DuplicateSegmentType { segment_type: 1 })));
    assert!(matches!(ustx::UsTx::from_str("CVWqqlY"), Err(SectionDecodeError::UnknownSegmentVersion { segment_version: 2 })));
    assert!(matches!(ustx::UsTx::from_str("B"), Err(SectionDecodeError::Read(_))));
    match decode_section(SectionId::UsTx, "BVWqqmW") {
        Ok(Section::UsTx(v)) => assert_eq!(v, ustx_expected(None)),
        other => panic!("unexpected {:?}", other),
    }
    assert_eq!(decode_section(SectionId::UsTx, "BVWqqmW").unwrap().id(), SectionId::UsTx);
}

fn usde_expected(gpc: Option<bool>) -> usde::UsDe {
    let core = usde::Core {
        processing_notice: Notice::Provided,
        sale_opt_out_notice: Notice::Provided,
        targeted_advertising_opt_out_notice: Notice::Provided,
        sale_opt_out: OptOut::OptedOut,
        targeted_advertising_opt_out: OptOut::OptedOut,
        sensitive_data_processing: usde::SensitiveDataProcessing {
            racial_or_ethnic_origin: Consent::Consent,
            religious_beliefs: Consent::Consent,
            health_data: Consent::Consent,
            sex_life_or_sexual_orientation: Consent::Consent,
            citizenship_or_immigration_status: Consent::Consent,
            transgender_or_nonbinary_status: Consent::Consent,
            genetic_data: Consent::Consent,
            biometric_data: Consent::Consent,
            precise_geolocation_data: Consent::Consent,
        },
        known_child_sensitive_data_consents: usde::KnownChildSensitiveDataConsents {
            process_sensitive_data_from_known_child: Consent::NoConsent,
            sell_personal_data_from_13_to_17: Consent::NoConsent,
            process_personal_data_from_13_to_17: Consent::NoConsent,
            profiling_from_13_to_17: Consent::NoConsent,
            process_personal_data_from_known_child: Consent::NoConsent,
        },
        additional_data_processing_consent: Consent::Consent,
        mspa_covered_transaction: true,
        mspa_opt_out_option_mode: MspaMode::Yes,
        mspa_service_provider_mode: MspaMode::No,
    };
    usde::UsDe { core, gpc }
}

#[test]
fn usde_parse() {
    assert_eq!(usde::UsDe::from_str("BVWqqpVZY").unwrap(), usde_expected(None));
    assert_eq!(usde::UsDe::from_str("BVWqqpVZY.YA").unwrap(), usde_expected(Some(true)));
    assert!(matches!(usde::UsDe::from_str("BVWqqpVZY.YA.YA"), Err(SectionDecodeError::DuplicateSegmentType { segment_type: 1 })));
    assert!(matches!(usde::UsDe::from_str("CVWqqlY"), Err(SectionDecodeError::UnknownSegmentVersion { segment_version: 2 })));
    assert!(matches!(usde::UsDe::from_str("B"), Err(SectionDecodeError::Read(_))));
    match decode_section(SectionId::UsDe, "BVWqqpVZY") {
        Ok(Section::UsDe(v)) => assert_eq!(v, usde_expected(None)),
        other => panic!("unexpected {:?}", other),
    }
    assert_eq!(decode_section(SectionId::UsDe, "BVWqqpVZY").unwrap().id(), SectionId::UsDe);
}

fn usne_expected(gpc: Option<bool>) -> usne::UsNe {
    let core = usne::Core {
        processing_notice: Notice::Provided,
        sale_opt_out_notice: Notice::Provided,
        targeted_advertising_opt_out_notice: Notice::Provided,
        sale_opt_out: OptOut::OptedOut,
        targeted_advertising_opt_out: OptOut::OptedOut,
        sensitive_data_processing: usne::SensitiveDataProcessing {
            racial_or_ethnic_origin: Consent::Consent,
            religious_beliefs: Consent::Consent,
            health_data: Consent::Consent,
            sex_life_or_sexual_orientation: Consent::Consent,
            citizenship_or_immigration_status: Consent::Consent,
            genetic_data: Consent::Consent,
            biometric_data: Consent::Consent,
            precise_geolocation_data: Consent::Consent,
        },
        known_child_sensitive_data_consents: Consent::NoConsent,
        additional_data_processing_consent: Consent::Consent,
        mspa_covered_transaction: true,
        mspa_opt_out_option_mode: MspaMode::Yes,
        mspa_service_provider_mode: MspaMode::No,
    };
    usne::UsNe { core, gpc }
}

#[test]
fn usne_parse() {
    assert_eq!(usne::UsNe::from_str("BVWqqmW").unwrap(), usne_expected(None));
    assert_eq!(usne::UsNe::from_str("BVWqqmW.YA").unwrap(), usne_expected(Some(true)));
    assert!(matches!(usne::UsNe::from_str("BVWqqmW.YA.YA"), Err(SectionDecodeError::DuplicateSegmentType { segment_type: 1 })));
    assert!(matches!(usne::UsNe::from_str("CVWqqlY"), Err(SectionDecodeError::UnknownSegmentVersion { segment_version: 2 })));
    assert!(matches!(usne::UsNe::from_str("B"), Err(SectionDecodeError::Read(_))));
    match decode_section(SectionId::UsNe, "BVWqqmW") {
        Ok(Section::UsNe(v)) => assert_eq!(v, usne_expected(None)),
        other => panic!("unexpected {:?}", other),
    }
    assert_eq!(decode_section(SectionId::UsNe, "BVWqqmW").unwrap().id(), SectionId::UsNe);
}

fn usnh_expected(gpc: Option<bool>) -> usnh::UsNh {
    let core = usnh::Core {
        processing_notice: Notice::Provided,
        sale_opt_out_notice: Notice::Provided,
        targeted_advertising_opt_out_notice: Notice::Provided,
        sale_opt_out: OptOut::OptedOut,
        targeted_advertising_opt_out: OptOut::OptedOut,
        sensitive_data_processing: usnh::SensitiveDataProcessing {
            racial_or_ethnic_origin: Consent::Consent,
            religious_beliefs: Consent::Consent,
            health_data: Consent::Consent,
            sex_life_or_sexual_orientation: Consent::Consent,
            citizenship_or_immigration_status: Consent::Consent,
            genetic_data: Consent::Consent,
            biometric_data: Consent::Consent,
            precise_geolocation_data: Consent::Consent,
        },
        known_child_sensitive_data_consents: usnh::KnownChildSensitiveDataConsents {
            process_sensitive_data_from_known_child: Consent::NoConsent,
            sell_personal_data_from_13_to_16: Consent::NoConsent,
            process_personal_data_from_13_to_16: Consent::NoConsent,
        },
        additional_data_processing_consent: Consent::Consent,
        mspa_covered_transaction: true,
        mspa_opt_out_option_mode: MspaMode::Yes,
        mspa_service_provider_mode: MspaMode::No,
    };
    usnh::UsNh { core, gpc }
}

#[test]
fn usnh_parse() {
    assert_eq!(usnh::UsNh::from_str("BVWqqlZY").unwrap(), usnh_expected(None));
    assert_eq!(usnh::UsNh::from_str("BVWqqlZY.YA").unwrap(), usnh_expected(Some(true)));
    assert!(matches!(usnh::UsNh::from_str("BVWqqlZY.YA.YA"), Err(SectionDecodeError::DuplicateSegmentType { segment_type: 1 })));
    assert!(matches!(usnh::UsNh::from_str("CVWqqlY"), Err(SectionDecodeError::UnknownSegmentVersion { segment_version: 2 })));
    assert!(matches!(usnh::UsNh::from_str("B"), Err(SectionDecodeError::Read(_))));
    match decode_section(SectionId::UsNh, "BVWqqlZY") {
        Ok(Section::UsNh(v)) => assert_eq!(v, usnh_expected(None)),
        other => panic!("unexpected {:?}", other),
    }
    assert_eq!(decode_section(SectionId::UsNh, "BVWqqlZY").unwrap().id(), SectionId::UsNh);
}

fn usnj_expected(gpc: Option<bool>) -> usnj::UsNj {
    let core = usnj::Core {
        processing_notice: Notice::Provided,
        sale_opt_out_notice: Notice::Provided,
        targeted_advertising_opt_out_notice: Notice::Provided,
        sale_opt_out: OptOut::OptedOut,
        targeted_advertising_opt_out: OptOut::OptedOut,
        sensitive_data_processing: usnj::SensitiveDataProcessing {
            racial_or_ethnic_origin: Consent::Consent,
            religious_beliefs: Consent::Consent,
            health_data: Consent::Consent,
            sex_life_or_sexual_orientation: Consent::Consent,
            citizenship_or_immigration_status: Consent::Consent,
            transgender_or_nonbinary_status: Consent::Consent,
            genetic_data: Consent::Consent,
            biometric_data: Consent::Consent,
            precise_geolocation_data: Consent::Consent,
            financial_data: Consent::Consent,
        },
        known_child_sensitive_data_consents: usnj::KnownChildSensitiveDataConsents {
            process_sensitive_data_from_known_child: Consent::NoConsent,
            sell_personal_data_from_13_to_16: Consent::NoConsent,
            process_personal_data_from_13_to_16: Consent::NoConsent,
            profiling_from_13_to_16: Consent::NoConsent,
            process_personal_data_from_known_child: Consent::NoConsent,
        },
        additional_data_processing_consent: Consent::Consent,
        mspa_covered_transaction: true,
        mspa_opt_out_option_mode: MspaMode::Yes,
        mspa_service_provider_mode: MspaMode::No,
    };
    usnj::UsNj { core, gpc }
}

#[test]
fn usnj_parse() {
    assert_eq!(usnj::UsNj::from_str("BVWqqqVWW").unwrap(), usnj_expected(None));
    assert_eq!(usnj::UsNj::from_str("BVWqqqVWW.YA").unwrap(), usnj_expected(Some(true)));
    assert!(matches!(usnj::UsNj::from_str("BVWqqqVWW.YA.YA"), Err(SectionDecodeError::DuplicateSegmentType { segment_type: 1 })));
    assert!(matches!(usnj::UsNj::from_str("CVWqqlY"), Err(SectionDecodeError::UnknownSegmentVersion { segment_version: 2 })));
    assert!(matches!(usnj::UsNj::from_str("B"), Err(SectionDecodeError::Read(_))));
    match decode_section(SectionId::UsNj, "BVWqqqVWW") {
        Ok(Section::UsNj(v)) => assert_eq!(v, usnj_expected(None)),
        other => panic!("unexpected {:?}", other),
    }
    assert_eq!(decode_section(SectionId::UsNj, "BVWqqqVWW").unwrap().id(), SectionId::UsNj);
}

fn ustn_expected(gpc: Option<bool>) -> ustn::UsTn {
    let core = ustn::Core {
        processing_notice: Notice::Provided,
        sale_opt_out_notice: Notice::Provided,
        targeted_advertising_opt_out_notice: Notice::Provided,
        sale_opt_out: OptOut::OptedOut,
        targeted_advertising_opt_out: OptOut::OptedOut,
        sensitive_data_processing: ustn::SensitiveDataProcessing {
            racial_or_ethnic_origin: Consent::Consent,
            religious_beliefs: Consent::Consent,
            health_data: Consent::Consent,
            sex_life_or_sexual_orientation: Consent::Consent,
            citizenship_or_immigration_status: Consent::Consent,
            genetic_data: Consent::Consent,
            biometric_data: Consent::Consent,
            precise_geolocation_data: Consent::Consent,
        },
        known_child_sensitive_data_consents: Consent::NoConsent,
        additional_data_processing_consent: Consent::Consent,
        mspa_covered_transaction: true,
        mspa_opt_out_option_mode: MspaMode::Yes,
        mspa_service_provider_mode: MspaMode::No,
    };
    ustn::UsTn { core, gpc }
}

#[test]
fn ustn_parse() {
    assert_eq!(ustn::UsTn::from_str("BVWqqmW").unwrap(), ustn_expected(None));
    assert_eq!(ustn::UsTn::from_str("BVWqqmW.YA").unwrap(), ustn_expected(Some(true)));
    assert!(matches!(ustn::UsTn::from_str("BVWqqmW.YA.YA"), Err(SectionDecodeError::DuplicateSegmentType { segment_type: 1 })));
    assert!(matches!(ustn::UsTn::from_str("CVWqqlY"), Err(SectionDecodeError::UnknownSegmentVersion { segment_version: 2 })));
    assert!(matches!(ustn::UsTn::from_str("B"), Err(SectionDecodeError::Read(_))));
    match decode_section(SectionId::UsTn, "BVWqqmW") {
        Ok(Section::UsTn(v)) => assert_eq!(v, ustn_expected(None)),
        other => panic!("unexpected {:?}", other),
    }
    assert_eq!(decode_section(SectionId::UsTn, "BVWqqmW").unwrap().id(), SectionId::UsTn);
}
