use iab_gpp::sections::uspv1::{Char, UspV1};
use iab_gpp::sections::{decode_section, Section, SectionDecodeError, SectionId};
use iab_gpp::v1::{GPPDecodeError, GPPString};
use std::str::FromStr;

fn assert_send_sync<T: Send + Sync>() {}

#[test]
fn section_implements_traits() {
    assert_send_sync::<Section>();
}

#[test]
fn gpp_string_implements_traits() {
    assert_send_sync::<GPPString>();
}

#[test]
fn gpp_string_section() {
    let s = "DBABjw~BPXuQIAPXuQIAAfKABENB-CgAAAAAAAAAAAAAAAA.YAAAAAAAAAA~1YNN";
    let g = GPPString::from_str(s).unwrap();
    assert_eq!(
        g.section(SectionId::TcfCaV1),
        Some("BPXuQIAPXuQIAAfKABENB-CgAAAAAAAAAAAAAAAA.YAAAAAAAAAA")
    );
    assert_eq!(g.section(SectionId::UspV1), Some("1YNN"));
    assert_eq!(g.section(SectionId::TcfEuV2), None);
}

fn ids_of(g: &GPPString) -> Vec<SectionId> {
    let mut it = g.section_ids();
    let mut out = vec![];
    while let Some(&id) = it.next() {
        out.push(id);
    }
    out
}

#[test]
fn gpp_string_section_ids() {
    let cases = [
        ("DBABM~CPXxRfAPXxRfAAfKABENB-CgAAAAAAAAAAYgAAAAAAAA", vec![SectionId::TcfEuV2]),
        (
            "DBACNY~CPXxRfAPXxRfAAfKABENB-CgAAAAAAAAAAYgAAAAAAAA~1YNN",
            vec![SectionId::TcfEuV2, SectionId::UspV1],
        ),
        (
            "DBABjw~BPXuQIAPXuQIAAfKABENB-CgAAAAAAAAAAAAAAAA.YAAAAAAAAAA~1YNN",
            vec![SectionId::TcfCaV1, SectionId::UspV1],
        ),
    ];
    for (s, expected) in cases {
        let g = GPPString::from_str(s).unwrap();
        assert_eq!(g.section_ids().len(), expected.len());
        assert_eq!(ids_of(&g), expected);
    }
}

#[test]
fn gpp_string_sections() {
    let cases = [
        (
            "DBABM~CPXxRfAPXxRfAAfKABENB-CgAAAAAAAAAAYgAAAAAAAA",
            vec!["CPXxRfAPXxRfAAfKABENB-CgAAAAAAAAAAYgAAAAAAAA"],
        ),
        (
            "DBACNY~CPXxRfAPXxRfAAfKABENB-CgAAAAAAAAAAYgAAAAAAAA~1YNN",
            vec!["CPXxRfAPXxRfAAfKABENB-CgAAAAAAAAAAYgAAAAAAAA", "1YNN"],
        ),
        (
            "DBABjw~BPXuQIAPXuQIAAfKABENB-CgAAAAAAAAAAAAAAAA.YAAAAAAAAAA~1YNN",
            vec!["BPXuQIAPXuQIAAfKABENB-CgAAAAAAAAAAAAAAAA.YAAAAAAAAAA", "1YNN"],
        ),
    ];
    for (s, expected) in cases {
        let g = GPPString::from_str(s).unwrap();
        let mut it = g.sections();
        assert_eq!(it.len(), expected.len());
        let mut out = vec![];
        while let Some(t) = it.next() {
            out.push(t);
            assert_eq!(it.len(), expected.len() - out.len());
        }
        assert_eq!(out, expected);
        assert_eq!(it.len(), 0);
    }
}

#[test]
fn gpp_string_decode_section() {
    let cases = [
        ("DBABM~CPXxRfAPXxRfAAfKABENB-CgAAAAAAAAAAYgAAAAAAAA", vec![SectionId::TcfEuV2]),
        (
            "DBACNY~CPXxRfAPXxRfAAfKABENB-CgAAAAAAAAAAYgAAAAAAAA~1YNN",
            vec![SectionId::TcfEuV2, SectionId::UspV1],
        ),
        (
            "DBABjw~BPXuQIAPXuQIAAfKABENB-CgAAAAAAAAAAAAAAAA.YAAAAAAAAAA~1YNN",
            vec![SectionId::TcfCaV1, SectionId::UspV1],
        ),
    ];
    for (s, expected) in cases {
        let g = GPPString::from_str(s).unwrap();
        let decoded: Vec<SectionId> = ids_of(&g).iter().map(|id| g.decode_section(*id).unwrap().id()).collect();
        assert_eq!(decoded, expected);
        let all: Vec<SectionId> = g.decode_all_sections().into_iter().map(|r| r.unwrap().id()).collect();
        assert_eq!(all, expected);
    }
}

#[test]
fn gpp_string_decode_uspv1() {
    let cases = [
        ("DBABTA~1YN-", Char::Yes, Char::No, Char::NotApplicable),
        ("DBABTA~1NNN", Char::No, Char::No, Char::No),
        ("DBABTA~1YYY", Char::Yes, Char::Yes, Char::Yes),
        ("DBACNY~CPXxRfAPXxRfAAfKABENB-CgAAAAAAAAAAYgAAAAAAAA~1YNN", Char::Yes, Char::No, Char::No),
    ];
    for (s, a, b, c) in cases {
        let u: UspV1 = GPPString::from_str(s).unwrap().decode().unwrap();
        assert_eq!(u, UspV1 { opt_out_notice: a, opt_out_sale: b, lspa_covered: c });
    }
}

#[test]
fn gpp_string_missing_section() {
    let g = GPPString::parse_str("DBABTA~1YNN").unwrap();
    assert!(matches!(
        g.decode_section(SectionId::TcfEuV2),
        Err(SectionDecodeError::MissingSection(SectionId::TcfEuV2))
    ));
    assert!(matches!(
        g.decode::<iab_gpp::sections::tcfeuv2::TcfEuV2>(),
        Err(SectionDecodeError::MissingSection(SectionId::TcfEuV2))
    ));
}

#[test]
fn mod_truncated_string() {
    let r = GPPString::from_str("DBACNY~CPytTYAPytTYABEACBENDXCoAP_AAH_AAAIwgoNf_X__b3_v-_7___t0eY1f9_7__-0zjhfdt-8N3f_X_L8X_2M7");
    assert!(matches!(r, Err(GPPDecodeError::IdSectionMismatch { ids: 2, sections: 1 })));
}

#[test]
fn mod_non_gpp_tcfeuv2_string() {
    let r = GPPString::from_str("CP48G0AP48G0AEsACCPLAkEgAAAAAEPgAB5YAAAQaQD2F2K2kKFkPCmQWYAQBCijYEAhQAAAAkCBIAAgAUgQAgFIIAgAIFAAAAAAAAAQEgCQAAQABAAAIACgAAAAAAIAAAAAAAQQAAAAAIAAAAAAAAEAAAAAAAQAAAAIAABEhCAAQQAEAAAAAAAQAAAAAAAAAAABAAAAAAAAAAAAAAAAAAAAgAA");
    assert!(matches!(r, Err(GPPDecodeError::InvalidHeaderType { found: 2 })));
}

#[test]
fn mod_invalid_tcfca_section() {
    let r = GPPString::from_str("DBABjw~CPXxRfAPXxRfAAfKABENB-CgAAAAAAAAAAYgAAAAAAAA~1YNN")
        .unwrap()
        .decode_all_sections();
    assert!(matches!(r[0], Err(SectionDecodeError::UnknownSegmentVersion { segment_version: 2 })));
}

#[test]
fn invalid_tcfeuv2_section() {
    let r = GPPString::from_str("DBABMA~CQLvHAAQLvHAAAKA4DENBaFsAP_gAEPgAAwIKxtX_G9_bXlr8X736ftkeY1f99h77sQxBhZBk-4FzLvW_JwX32E7NA36tqYKmRIAu3TBIQNlHJDURVCgaogVrTDMaEyUoTtKJ6BkiFMRY2dYCFxvm4tjeQCY5vr991d52R-tbdrs3dzyy4hnv3a9_-S1WJCdA5-tDfv9bROb89IO5_x8v4v4_N7pE2_eT1l_tWvp7D9-ctv_9XX99_fbff9Pn_-uB_-_X__f_H37grAAQYCABAEAQICAAAAAQAAEAAEABAAAAAAACgAABEEAAEDAAAQAIAQAAABAABAAAAIAAAAAgACAAAAAEAgAAAACgADAAAAAAAYAAAMAEgIAAAAAQACmABAIFAAEJAFAEACEAEEAIQAABAEACAEABRwBAACBAoAAAQAAEAAAFgIDgAQEpAgACIgEAAAIAEAggAAEQjYACCAASCqqBAiiCAQLBoQFPaQAkgBACDgmQAgABQAHAAsA.f_gAAAAAAAAA")
        .unwrap()
        .decode_all_sections();
    assert!(matches!(r[0], Err(SectionDecodeError::Read { .. })));
}

#[test]
fn very_large_string() {
    let s = "DBACMYA~CQMC4oAQMC4oAPoABABGBaEAAP_gAP_gAAqIKxtX_G__bXlv-X736ftkeY1f99h77sQxBhbJs-4FzLvW_JwX32E7NE36tqYKmRIAu3TBIQNtHJjURVChaogVrTDsaEyUoTtKJ-BkiHMRY2dYCFxvm4tjeQCZ5vr_91d52R_t7dr-3dzyy5hnv3a9_-S1WJidK5-tHfv9bROb-_I-9_x-_4v4_N7pE2_eT1t_tWvt739-8tv_9__99__7_f______3_-_f__f____grG1f8b_9teW_5fvfp-2R5jV_32HvuxDEGFsmz7gXMu9b8nBffYTs0Tfq2pgqZEgC7dMEhA20cmNRFUKFqiBWtMOxoTJShO0on4GSIcxFjZ1gIXG-bi2N5AJnm-v_3V3nZH-3t2v7d3PLLmGe_dr3_5LVYmJ0rn60d-_1tE5v78j73_H7_i_j83ukTb95PW3-1a-3vf37y2__3__33__v9_______f_79__9____-AAA.QKxtX_G__bXlv-X736ftkeY1f99h77sQxBhbJs-4FzLvW_JwX32E7NE36tqYKmRIAu3TBIQNtHJjURVChaogVrTDsaEyUoTtKJ-BkiHMRY2dYCFxvm4tjeQCZ5vr_91d52R_t7dr-3dzyy5hnv3a9_-S1WJidK5-tHfv9bROb-_I-9_x-_4v4_N7pE2_eT1t_tWvt739-8tv_9__99__7_f______3_-_f__f____gAA.IKxtX_G__bXlv-X736ftkeY1f99h77sQxBhbJs-4FzLvW_JwX32E7NE36tqYKmRIAu3TBIQNtHJjURVChaogVrTDsaEyUoTtKJ-BkiHMRY2dYCFxvm4tjeQCZ5vr_91d52R_t7dr-3dzyy5hnv3a9_-S1WJidK5-tHfv9bROb-_I-9_x-_4v4_N7pE2_eT1t_tWvt739-8tv_9__99__7_f______3_-_f__f____gAA~BQMC4oAQMC4oAPoABABGB0CYAf8AAf8AAAqdA-AAUABwAFQALQAaABLACgAF0ANoAdwA_QCCAIQARQAnwBWgC3AGUANMAc4A7gCAQElASYAnYBPwDFAGaAM6AZ8A14B_AEngJyAT-Ao8BUQCpQFvALhAXQAvcBf4DBwGYANNAbUA3EBxoDxAHmgPkAgIBCQCNwEpYJgAmCBNUCa4E5gJ-AUmApYBU4FToHwACgAOAAqABaADQAJYAUAAugBtADuAH6AQQBCACKAE-AK0AW4AygBpgDnAHcAQCAkoCTAE7AJ-AYoAzQBnQDPgGvAP4Ak8BOQCfwFHgKiAVKAt4BcIC6AF7gL_AYOAzABpoDagG4gONAeIA80B8gEBAISARuAlLBMAEwQJqgTXAnMBPwCkwFLAKnAAAA.YAAAAAAAAAA";
    let gpp = GPPString::from_str(s).unwrap();
    assert_eq!(ids_of(&gpp), vec![SectionId::TcfEuV2, SectionId::TcfCaV1]);

    let tcfeuv2 = gpp.decode_section(SectionId::TcfEuV2);
    assert!(matches!(tcfeuv2, Ok(Section::TcfEuV2(_))), "got {:?}", tcfeuv2);

    let tcfcav1 = gpp.decode_section(SectionId::TcfCaV1);
    assert!(matches!(tcfcav1, Ok(Section::TcfCaV1(_))), "got {:?}", tcfcav1);
}

#[test]
fn header_errors() {
    assert!(matches!(GPPString::parse_str(""), Err(GPPDecodeError::Read { .. })));
    assert!(matches!(GPPString::parse_str("D"), Err(GPPDecodeError::Read { .. })));
    // version 2
    assert!(matches!(GPPString::parse_str("DCABM~x"), Err(GPPDecodeError::InvalidGPPVersion { found: 2 })));
    // section 27 is listed: 12 bits of count 1, then 0, then the Fibonacci code of 27 (1 + 5 + 21)
    assert!(matches!(
        GPPString::parse_str("DBABSY~x"),
        Err(GPPDecodeError::UnsupportedSectionId(27))
    ));
}

#[test]
fn decode_unsupported_section() {
    assert!(matches!(
        decode_section(SectionId::GppSignalIntegrity, "x"),
        Err(SectionDecodeError::UnsupportedSectionId(SectionId::GppSignalIntegrity))
    ));
    assert!(matches!(
        decode_section(SectionId::GppHeader, "x"),
        Err(SectionDecodeError::UnsupportedSectionId(SectionId::GppHeader))
    ));
}

#[test]
fn section_id_numbers() {
    for n in 0u8..=30 {
        match SectionId::from_u8(n) {
            Some(id) => {
                assert!((1..=22).contains(&n));
                assert_eq!(id.to_u8(), n);
            }
            None => assert!(n == 0 || n > 22),
        }
    }
    assert_eq!(SectionId::from_u8(8), Some(SectionId::UsCa));
}
