//! The voice path: where a voice file is fetched from, where it is kept, and
//! what the transcription service answered.
use vstd::prelude::*;
use vstd::string::StringExecFns;
use crate::json::{json_member, json_string, value_as_str, value_get};

verus! {

/// The address of a file on the chat platform: the platform's file endpoint,
/// the bot's token, and the path that the platform gave for the file.
pub open spec fn voice_url_text(token: Seq<char>, file_path: Seq<char>) -> Seq<char> {
    "https://api.telegram.org/file/bot"@ + token + "/"@ + file_path
}

/// The local file that a voice file is written to, named by its identifier.
pub open spec fn voice_file_text(file_id: Seq<char>) -> Seq<char> {
    "/tmp/"@ + file_id + ".ogg"@
}

/// The value of the authorization header that carries an API key.
pub open spec fn bearer_text(api_key: Seq<char>) -> Seq<char> {
    "Bearer "@ + api_key
}

/// The text of a transcription response: the string under its member `text`.
/// A response without that member, or with one that is no string, has none.
pub open spec fn transcript_of(response: serde_json::Value) -> Option<Seq<char>> {
    match json_member(response, "text"@) {
        Some(member) => json_string(member),
        None => None,
    }
}

/// Builds the address from which a voice file is downloaded.
pub fn voice_url(token: &str, file_path: &str) -> (url: String)
    ensures
        url@ == voice_url_text(token@, file_path@),
{
    let mut url = String::from_str("https://api.telegram.org/file/bot");
    url.append(token);
    url.append("/");
    url.append(file_path);
    url
}

/// Builds the name of the local file for a voice file.
pub fn voice_file_name(file_id: &str) -> (name: String)
    ensures
        name@ == voice_file_text(file_id@),
{
    let mut name = String::from_str("/tmp/");
    name.append(file_id);
    name.append(".ogg");
    name
}

/// Builds the value of the authorization header for the transcription
/// service.
pub fn bearer(api_key: &str) -> (header: String)
    ensures
        header@ == bearer_text(api_key@),
{
    let mut header = String::from_str("Bearer ");
    header.append(api_key);
    header
}

/// Reads the text out of a transcription response.
pub fn transcript_text(response: &serde_json::Value) -> (text: Option<String>)
    ensures
        match text {
            Some(t) => transcript_of(*response) == Some(t@),
            None => transcript_of(*response) is None,
        },
{
    match value_get(response, "text") {
        Some(member) => match value_as_str(member) {
            Some(t) => Some(t.to_owned()),
            None => None,
        },
        None => None,
    }
}

} // verus!
