use vstd::prelude::*;

verus! {

/// The only artifact format this library produces or accepts.
pub open spec fn format_tag() -> Seq<char> {
    "supernova_v1"@
}

/// The only curve pair this library produces or accepts.
pub open spec fn curve_tag() -> Seq<char> {
    "pasta"@
}

/// The verifying-key artifact: the folding engine's public parameters,
/// serialised and base64-encoded, under the two header fields.
pub struct VkFile {
    pub format: String,
    pub curve: String,
    pub parameters_b64: String,
}

/// The proof artifact: the recursive proof after `num_steps` applications of
/// the step relation, serialised and base64-encoded, under the two header fields.
pub struct ProofFile {
    pub format: String,
    pub curve: String,
    pub num_steps: u64,
    pub proof_b64: String,
}

/// A header field that does not hold the required literal. Each variant keeps
/// the offending values of both artifacts, proof first.
#[derive(Debug, PartialEq, Eq)]
pub enum HeaderError {
    FormatMismatch { proof: String, vk: String },
    CurveMismatch { proof: String, vk: String },
}

/// Whether both artifacts carry the required format and curve.
pub open spec fn headers_valid(pf: ProofFile, vk: VkFile) -> bool {
    pf.format@ == format_tag() && vk.format@ == format_tag()
        && pf.curve@ == curve_tag() && vk.curve@ == curve_tag()
}

/// The header error that validation reports for the two artifacts: the format
/// fields are judged before the curve fields.
pub open spec fn header_error_of(pf: ProofFile, vk: VkFile) -> Option<HeaderError> {
    if pf.format@ != format_tag() || vk.format@ != format_tag() {
        Some(HeaderError::FormatMismatch { proof: pf.format, vk: vk.format })
    } else if pf.curve@ != curve_tag() || vk.curve@ != curve_tag() {
        Some(HeaderError::CurveMismatch { proof: pf.curve, vk: vk.curve })
    } else {
        None
    }
}

/// A fresh string holding the format literal.
pub fn format_string() -> (r: String)
    ensures
        r@ == format_tag(),
{
    "supernova_v1".to_owned()
}

/// A fresh string holding the curve literal.
pub fn curve_string() -> (r: String)
    ensures
        r@ == curve_tag(),
{
    "pasta".to_owned()
}

/// Checks the header fields of both artifacts: the formats first, then the
/// curves. Nothing else in the artifacts is read.
pub fn validate_headers(pf: &ProofFile, vk: &VkFile) -> (r: Result<(), HeaderError>)
    ensures
        r is Ok <==> headers_valid(*pf, *vk),
        r is Err ==> header_error_of(*pf, *vk) == Some(r->Err_0),
        r is Ok ==> header_error_of(*pf, *vk) is None,
{
    let fmt = format_string();
    let crv = curve_string();
    if pf.format != fmt || vk.format != fmt {
        return Err(HeaderError::FormatMismatch { proof: pf.format.clone(), vk: vk.format.clone() });
    }
    if pf.curve != crv || vk.curve != crv {
        return Err(HeaderError::CurveMismatch { proof: pf.curve.clone(), vk: vk.curve.clone() });
    }
    Ok(())
}

impl VkFile {
    /// The verifying-key artifact for encoded parameters, with the fixed headers.
    pub fn generated(parameters_b64: String) -> (r: VkFile)
        ensures
            r.format@ == format_tag(),
            r.curve@ == curve_tag(),
            r.parameters_b64 == parameters_b64,
    {
        VkFile { format: format_string(), curve: curve_string(), parameters_b64 }
    }
}

impl ProofFile {
    /// The proof artifact for an encoded proof of `num_steps` steps, with the
    /// fixed headers.
    pub fn generated(num_steps: u64, proof_b64: String) -> (r: ProofFile)
        ensures
            r.format@ == format_tag(),
            r.curve@ == curve_tag(),
            r.num_steps == num_steps,
            r.proof_b64 == proof_b64,
    {
        ProofFile { format: format_string(), curve: curve_string(), num_steps, proof_b64 }
    }
}

} // verus!
