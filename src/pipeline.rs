use crate::codec::{b64_bytes, b64_text, decode_b64, encode_b64, f_to_hex, hex_of};
use crate::schema::{
    curve_tag, format_tag, header_error_of, headers_valid, validate_headers, HeaderError,
    ProofFile, VkFile,
};
use vstd::prelude::*;

verus! {

/// Why a pair of artifacts cannot be handed to the folding engine.
#[derive(Debug)]
pub enum VerifyError {
    /// A header field does not hold the required literal.
    Header(HeaderError),
    /// The verifying key's parameters blob is not valid base64.
    ParametersDecode(base64::DecodeError),
    /// The proof blob is not valid base64.
    ProofDecode(base64::DecodeError),
}

/// The serialised engine objects read out of a pair of artifacts, with the
/// step count that the proof declares.
pub struct DecodedBlobs {
    pub parameters: Vec<u8>,
    pub proof: Vec<u8>,
    pub num_steps: u64,
}

/// Both artifacts pass header validation and their blobs decode to `params`
/// and `proof`.
pub open spec fn decodes_to(pf: ProofFile, vk: VkFile, params: Seq<u8>, proof: Seq<u8>) -> bool {
    &&& headers_valid(pf, vk)
    &&& b64_bytes(vk.parameters_b64@) == Some(params)
    &&& b64_bytes(pf.proof_b64@) == Some(proof)
}

/// The serialised parameters and proof that a pair of artifacts yields, or
/// `None` where a header is wrong or a blob does not decode.
pub open spec fn prepared(pf: ProofFile, vk: VkFile) -> Option<(Seq<u8>, Seq<u8>)> {
    if headers_valid(pf, vk) && b64_bytes(vk.parameters_b64@) is Some && b64_bytes(
        pf.proof_b64@,
    ) is Some {
        Some((b64_bytes(vk.parameters_b64@)->0, b64_bytes(pf.proof_b64@)->0))
    } else {
        None
    }
}

/// Validates the headers of both artifacts, then decodes the parameters blob
/// and then the proof blob. The first failure is returned; no blob is
/// decoded when a header is wrong.
pub fn prepare_verification(pf: &ProofFile, vk: &VkFile) -> (r: Result<DecodedBlobs, VerifyError>)
    ensures
        match r {
            Ok(d) => decodes_to(*pf, *vk, d.parameters@, d.proof@) && d.num_steps == pf.num_steps,
            Err(VerifyError::Header(e)) => header_error_of(*pf, *vk) == Some(e),
            Err(VerifyError::ParametersDecode(_)) => headers_valid(*pf, *vk) && b64_bytes(
                vk.parameters_b64@,
            ) is None,
            Err(VerifyError::ProofDecode(_)) => {
                &&& headers_valid(*pf, *vk)
                &&& b64_bytes(vk.parameters_b64@) is Some
                &&& b64_bytes(pf.proof_b64@) is None
            },
        },
        match r {
            Ok(d) => prepared(*pf, *vk) == Some((d.parameters@, d.proof@)),
            Err(_) => prepared(*pf, *vk) is None,
        },
{
    match validate_headers(pf, vk) {
        Err(e) => return Err(VerifyError::Header(e)),
        Ok(()) => {},
    }
    let parameters = match decode_b64(vk.parameters_b64.as_str()) {
        Ok(v) => v,
        Err(e) => return Err(VerifyError::ParametersDecode(e)),
    };
    let proof = match decode_b64(pf.proof_b64.as_str()) {
        Ok(v) => v,
        Err(e) => return Err(VerifyError::ProofDecode(e)),
    };
    Ok(DecodedBlobs { parameters, proof, num_steps: pf.num_steps })
}

/// The reported result of verification once the engine has accepted the
/// proof: with no expected input every accepted proof passes; otherwise the
/// hex text of the final second state component must equal the first
/// expected input.
pub open spec fn public_input_ok(final_hex: Seq<char>, inputs: Seq<String>) -> bool {
    inputs.len() == 0 || inputs[0]@ == final_hex
}

/// Compares the final second state component, given by its canonical byte
/// representation, against the first element of the public inputs.
pub fn public_input_result(final_repr: &[u8], inputs: &Vec<String>) -> (r: bool)
    ensures
        r == public_input_ok(hex_of(final_repr@), inputs@),
{
    if inputs.len() == 0 {
        return true;
    }
    let got = f_to_hex(final_repr);
    inputs[0] == got
}

/// Wraps the serialised outcome of a generation run into the three artifacts:
/// the verifying key, the proof of `num_steps` steps, and the public inputs,
/// which hold the hex text of the final second state component alone.
pub fn package_artifacts(num_steps: u64, parameters: &[u8], proof: &[u8], final_repr: &[u8]) -> (r: (
    VkFile,
    ProofFile,
    Vec<String>,
))
    ensures
        r.0.format@ == format_tag(),
        r.0.curve@ == curve_tag(),
        r.1.format@ == format_tag(),
        r.1.curve@ == curve_tag(),
        r.0.parameters_b64@ == b64_text(parameters@),
        r.1.proof_b64@ == b64_text(proof@),
        r.1.num_steps == num_steps,
        r.2@.len() == 1,
        r.2@[0]@ == hex_of(final_repr@),
        decodes_to(r.1, r.0, parameters@, proof@),
{
    let vk = VkFile::generated(encode_b64(parameters));
    let pf = ProofFile::generated(num_steps, encode_b64(proof));
    let mut inputs: Vec<String> = Vec::new();
    inputs.push(f_to_hex(final_repr));
    (vk, pf, inputs)
}

/// Round trip: artifacts that packaging produced from some serialised
/// parameters and proof pass validation and decode to exactly those bytes.
pub proof fn lemma_packaged_round_trip(pf: ProofFile, vk: VkFile, params: Seq<u8>, proof: Seq<u8>)
    requires
        decodes_to(pf, vk, params, proof),
    ensures
        prepared(pf, vk) == Some((params, proof)),
        header_error_of(pf, vk) is None,
{
}

/// A wrong curve in either artifact, under correct formats, is reported as a
/// curve mismatch naming both curves, and nothing is decoded.
pub proof fn lemma_curve_tampering(pf: ProofFile, vk: VkFile)
    requires
        pf.format@ == format_tag(),
        vk.format@ == format_tag(),
        pf.curve@ != curve_tag() || vk.curve@ != curve_tag(),
    ensures
        header_error_of(pf, vk) == Some(HeaderError::CurveMismatch { proof: pf.curve, vk: vk.curve }),
        prepared(pf, vk) is None,
{
}

/// With no expected public input, every final state passes.
pub proof fn lemma_empty_inputs_pass(final_hex: Seq<char>, inputs: Seq<String>)
    requires
        inputs.len() == 0,
    ensures
        public_input_ok(final_hex, inputs),
{
}

} // verus!
