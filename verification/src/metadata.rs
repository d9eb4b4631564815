//! The metadata of a token: a JSON document with the token's name, a
//! description and its picture, handed out as a `data:` URI.
//!
//! The picture stands in the document as a `data:` URI of its own. Both the
//! picture and the document are encoded as Base64 over their UTF-8 bytes.
use vstd::prelude::*;
use vstd::string::*;
use vstd::utf8::encode_utf8;
use crate::base64::base64_encode;
use crate::base64::base64_text;
use crate::generator::drawing;
use crate::generator::SquiggleGenerator;
use crate::primitives::Seed;
use crate::svg::svg_document;

verus! {

/// The name of the collection, and of each of its tokens.
pub const TOKEN_NAME: &'static str = "Squiggle";

/// The symbol of the collection.
pub const TOKEN_SYMBOL: &'static str = "SQGL";

/// What every token's metadata says of it.
pub const TOKEN_DESCRIPTION: &'static str =
    "A squiggle drawn from the seed that its token was minted with.";

/// The document up to the name.
pub const JSON_NAME: &'static str = "{\"name\":\"";

/// Between the name and the description.
pub const JSON_DESCRIPTION: &'static str = "\",\"description\":\"";

/// Between the description and the encoded picture.
pub const JSON_IMAGE: &'static str = "\",\"image\":\"data:image/svg+xml;base64,";

/// The end of the document.
pub const JSON_CLOSE: &'static str = "\"}";

/// What stands before the encoded document in a token's URI.
pub const URI_PREFIX: &'static str = "data:application/json;base64,";

/// The metadata document of a token with the given picture.
pub open spec fn metadata_text(svg: Seq<char>) -> Seq<char> {
    JSON_NAME@ + TOKEN_NAME@ + JSON_DESCRIPTION@ + TOKEN_DESCRIPTION@ + JSON_IMAGE@ + base64_text(
        encode_utf8(svg),
    ) + JSON_CLOSE@
}

/// The URI that holds a given metadata document.
pub open spec fn uri_text(metadata: Seq<char>) -> Seq<char> {
    URI_PREFIX@ + base64_text(encode_utf8(metadata))
}

/// The URI of the token with the given seed.
pub open spec fn token_uri_text(seed: Seq<u8>) -> Seq<char> {
    uri_text(metadata_text(svg_document(drawing(seed))))
}

/// Writes the metadata document of a token with the given picture.
pub fn metadata_json(svg: &str) -> (json: String)
    ensures
        json@ == metadata_text(svg@),
{
    let image = base64_encode(svg.as_bytes());
    let mut json = String::new();
    json.append(JSON_NAME);
    json.append(TOKEN_NAME);
    json.append(JSON_DESCRIPTION);
    json.append(TOKEN_DESCRIPTION);
    json.append(JSON_IMAGE);
    json.append(image.as_str());
    json.append(JSON_CLOSE);
    json
}

/// Wraps a metadata document into a `data:` URI.
pub fn metadata_uri(metadata: &str) -> (uri: String)
    ensures
        uri@ == uri_text(metadata@),
{
    let encoded = base64_encode(metadata.as_bytes());
    let mut uri = String::new();
    uri.append(URI_PREFIX);
    uri.append(encoded.as_str());
    uri
}

/// The URI of the token with the given seed: its picture is drawn, put into
/// the metadata document, and the document into the URI.
pub fn seed_token_uri(seed: Seed) -> (uri: String)
    ensures
        uri@ == token_uri_text(seed@),
{
    let svg = SquiggleGenerator::new(seed).generate_svg();
    let json = metadata_json(svg.as_str());
    metadata_uri(json.as_str())
}

} // verus!
