//! The requests sent to the text-analysis service.

use vstd::prelude::*;
use vstd::string::StringExecFns;

verus! {

/// A request to analyse `text`, written in the language `language_code`.
pub struct TextRequest {
    pub text: String,
    pub language_code: String,
}

/// The request that analyses `message` as English text.
pub fn english_request(message: String) -> (req: TextRequest)
    ensures
        req.text@ == message@,
        req.language_code@ == "en"@,
{
    TextRequest { text: message, language_code: String::from_str("en") }
}

} // verus!
