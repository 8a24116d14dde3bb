use verifier_supernova::codec::{decode_b64, encode_b64, f_to_hex};
use verifier_supernova::pipeline::{
    package_artifacts, prepare_verification, public_input_result, VerifyError,
};
use verifier_supernova::schema::{validate_headers, HeaderError, ProofFile, VkFile};
use verifier_supernova::step::FibStep;

fn proof_file(format: &str, curve: &str, num_steps: u64, proof_b64: &str) -> ProofFile {
    ProofFile {
        format: format.to_string(),
        curve: curve.to_string(),
        num_steps,
        proof_b64: proof_b64.to_string(),
    }
}

fn vk_file(format: &str, curve: &str, parameters_b64: &str) -> VkFile {
    VkFile {
        format: format.to_string(),
        curve: curve.to_string(),
        parameters_b64: parameters_b64.to_string(),
    }
}

fn repr_of(v: u8) -> Vec<u8> {
    let mut r = vec![0u8; 32];
    r[0] = v;
    r
}

#[test]
fn headers_accepted() {
    let pf = proof_file("supernova_v1", "pasta", 10, "AAAA");
    let vk = vk_file("supernova_v1", "pasta", "AAAA");
    assert_eq!(validate_headers(&pf, &vk), Ok(()));
}

#[test]
fn format_mismatch_names_both_values() {
    let pf = proof_file("supernova_v2", "pasta", 10, "AAAA");
    let vk = vk_file("supernova_v1", "pasta", "AAAA");
    assert_eq!(
        validate_headers(&pf, &vk),
        Err(HeaderError::FormatMismatch {
            proof: "supernova_v2".to_string(),
            vk: "supernova_v1".to_string()
        })
    );
}

#[test]
fn format_is_case_sensitive() {
    let pf = proof_file("supernova_v1", "pasta", 10, "AAAA");
    let vk = vk_file("SUPERNOVA_V1", "pasta", "AAAA");
    assert!(matches!(
        validate_headers(&pf, &vk),
        Err(HeaderError::FormatMismatch { .. })
    ));
}

#[test]
fn format_judged_before_curve() {
    let pf = proof_file("other", "bn256", 10, "AAAA");
    let vk = vk_file("supernova_v1", "pasta", "AAAA");
    assert!(matches!(
        validate_headers(&pf, &vk),
        Err(HeaderError::FormatMismatch { .. })
    ));
}

#[test]
fn curve_tampering_in_proof_file() {
    let pf = proof_file("supernova_v1", "bn256", 10, "!!not base64!!");
    let vk = vk_file("supernova_v1", "pasta", "!!not base64!!");
    match prepare_verification(&pf, &vk) {
        Err(VerifyError::Header(e)) => assert_eq!(
            e,
            HeaderError::CurveMismatch { proof: "bn256".to_string(), vk: "pasta".to_string() }
        ),
        other => panic!("unexpected outcome: {:?}", other.err()),
    }
}

#[test]
fn curve_tampering_in_vk_file() {
    let pf = proof_file("supernova_v1", "pasta", 10, "AAAA");
    let vk = vk_file("supernova_v1", "Pasta", "AAAA");
    assert!(matches!(
        prepare_verification(&pf, &vk),
        Err(VerifyError::Header(HeaderError::CurveMismatch { .. }))
    ));
}

#[test]
fn hex_of_bytes() {
    assert_eq!(f_to_hex(&[1, 2, 3, 15, 16]), "0102030f10");
    assert_eq!(f_to_hex(&[]), "");
    assert_eq!(f_to_hex(&[0xff, 0xa0]), "ffa0");
}

#[test]
fn base64_encoding_is_standard_with_padding() {
    assert_eq!(encode_b64(b"hello"), "aGVsbG8=");
    assert_eq!(encode_b64(&[0xfb, 0xff]), "+/8=");
    assert_eq!(encode_b64(&[]), "");
}

#[test]
fn base64_round_trip() {
    let bytes: Vec<u8> = (0u8..=255).collect();
    let text = encode_b64(&bytes);
    assert_eq!(decode_b64(&text).unwrap(), bytes);
}

#[test]
fn base64_rejects_bad_text() {
    assert!(decode_b64("a$bc").is_err());
    assert!(decode_b64("A").is_err());
}

#[test]
fn parameters_blob_decode_error() {
    let pf = proof_file("supernova_v1", "pasta", 3, "AAAA");
    let vk = vk_file("supernova_v1", "pasta", "*bad*");
    assert!(matches!(
        prepare_verification(&pf, &vk),
        Err(VerifyError::ParametersDecode(_))
    ));
}

#[test]
fn proof_blob_decode_error() {
    let pf = proof_file("supernova_v1", "pasta", 3, "*bad*");
    let vk = vk_file("supernova_v1", "pasta", "AAAA");
    assert!(matches!(
        prepare_verification(&pf, &vk),
        Err(VerifyError::ProofDecode(_))
    ));
}

#[test]
fn prepared_blobs_carry_bytes_and_steps() {
    let pf = proof_file("supernova_v1", "pasta", 7, "AQID");
    let vk = vk_file("supernova_v1", "pasta", "aGVsbG8=");
    let d = prepare_verification(&pf, &vk).unwrap();
    assert_eq!(d.parameters, b"hello".to_vec());
    assert_eq!(d.proof, vec![1, 2, 3]);
    assert_eq!(d.num_steps, 7);
}

#[test]
fn happy_path_public_input() {
    let inputs = vec![format!("90{}", "00".repeat(31))];
    assert!(public_input_result(&repr_of(144), &inputs));
}

#[test]
fn public_input_mismatch_is_false() {
    let inputs = vec![format!("91{}", "00".repeat(31))];
    assert!(!public_input_result(&repr_of(144), &inputs));
    let inputs = vec!["0x90".to_string()];
    assert!(!public_input_result(&repr_of(144), &inputs));
}

#[test]
fn missing_inputs_element_passes() {
    let inputs: Vec<String> = Vec::new();
    assert!(public_input_result(&repr_of(144), &inputs));
    assert!(public_input_result(&repr_of(7), &inputs));
}

#[test]
fn only_first_input_is_compared() {
    let inputs = vec![format!("90{}", "00".repeat(31)), "junk".to_string()];
    assert!(public_input_result(&repr_of(144), &inputs));
}

#[test]
fn packaged_headers_are_fixed() {
    let (vk, pf, inputs) = package_artifacts(10, b"params", b"proof", &repr_of(144));
    assert_eq!(vk.format, "supernova_v1");
    assert_eq!(vk.curve, "pasta");
    assert_eq!(pf.format, "supernova_v1");
    assert_eq!(pf.curve, "pasta");
    assert_eq!(pf.num_steps, 10);
    assert_eq!(vk.parameters_b64, "cGFyYW1z");
    assert_eq!(pf.proof_b64, "cHJvb2Y=");
    assert_eq!(inputs, vec![format!("90{}", "00".repeat(31))]);
}

#[test]
fn packaged_artifacts_round_trip() {
    let params: Vec<u8> = (0u8..100).collect();
    let proof: Vec<u8> = (0u8..=255).rev().collect();
    let (vk, pf, _) = package_artifacts(0, &params, &proof, &repr_of(1));
    let d = prepare_verification(&pf, &vk).unwrap();
    assert_eq!(d.parameters, params);
    assert_eq!(d.proof, proof);
    assert_eq!(d.num_steps, 0);
}

#[test]
fn step_relation_arity_and_values() {
    let c = FibStep;
    assert_eq!(c.arity(), 2);
    assert_eq!(c.second_after(0), Some(1));
    assert_eq!(c.second_after(1), Some(2));
    assert_eq!(c.second_after(10), Some(144));
    assert_eq!(c.second_after(90), Some(7540113804746346429));
    assert_eq!(c.second_after(91), Some(12200160415121876738));
    assert_eq!(c.second_after(92), None);
    assert_eq!(c.second_after(u64::MAX), None);
}
