//! Payload packing: compression of the serialized payload document and
//! the two embedded variable definitions.

use vstd::prelude::*;
use vstd::string::StringExecFns;

verus! {

/// The base64 text that the compression routine produces for the given
/// character sequence; it depends on the characters alone.
pub uninterp spec fn lz_compress_b64(s: Seq<char>) -> Seq<char>;

/// Relies on `lz_str::compress_to_base64`: it maps the characters of its
/// input, and nothing else, to a base64 rendering of the LZ-compressed
/// UTF-16 form, so equal inputs give equal outputs.
#[verifier::external_body]
fn compress_b64(s: &str) -> (r: String)
    ensures
        r@ == lz_compress_b64(s@),
{
    lz_str::compress_to_base64(s)
}

/// The config variable definition: a complete assignment statement whose
/// right-hand side is the literal config document text.
pub open spec fn config_var_of(config: Seq<char>) -> Seq<char> {
    "var config = "@ + config
}

/// Wrap the config document as its variable definition.
pub fn config_var(config: &str) -> (r: String)
    ensures
        r@ == config_var_of(config@),
{
    let mut out = String::from_str("var config = ");
    out.append(config);
    out
}

/// The payload variable definition: a complete assignment statement whose
/// right-hand side decompresses the compressed payload text.
pub open spec fn pcbdata_var_of(payload: Seq<char>) -> Seq<char> {
    "var pcbdata = JSON.parse(LZString.decompressFromBase64(\""@ + lz_compress_b64(payload)
        + "\"))"@
}

/// Compress the payload document and wrap it as its variable definition.
pub fn pcbdata_var(payload: &str) -> (r: String)
    ensures
        r@ == pcbdata_var_of(payload@),
{
    let mut out = String::from_str("var pcbdata = JSON.parse(LZString.decompressFromBase64(\"");
    let c = compress_b64(payload);
    out.append(c.as_str());
    out.append("\"))");
    out
}

} // verus!
