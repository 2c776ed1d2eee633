//! Languages as the server names them.

use crate::wire::same_text;
use vstd::prelude::*;

verus! {

/// A language, as the server names it.
#[derive(Clone, Debug, PartialEq, Eq, Hash)]
pub enum Language {
    Chinese,
    English,
    Japanese,
    Korean,
    Portuguese,
    Russian,
    Spanish,
    Unknown(String),
}

impl Language {
    /// The language of a language code: the Chinese and Portuguese variants
    /// fold into one language each, and any other code is kept as unknown.
    pub fn from_code(code: &str) -> (r: Language)
        ensures
            (code@ == "zh"@ || code@ == "zh-Hans"@ || code@ == "zh-Hant"@) <==> r is Chinese,
            code@ == "en"@ <==> r is English,
            code@ == "ja"@ <==> r is Japanese,
            code@ == "ko"@ <==> r is Korean,
            (code@ == "pt-br"@ || code@ == "pt-pt"@) <==> r is Portuguese,
            code@ == "ru"@ <==> r is Russian,
            code@ == "es"@ <==> r is Spanish,
            r is Unknown ==> r->Unknown_0@ == code@,
    {
        proof {
            reveal_strlit("zh");
            assert("zh"@[0] == 'z' && "zh"@[1] == 'h');
            reveal_strlit("zh-Hans");
            assert("zh-Hans"@[0] == 'z' && "zh-Hans"@[1] == 'h' && "zh-Hans"@[2] == '-' && "zh-Hans"@[3] == 'H' && "zh-Hans"@[4] == 'a' && "zh-Hans"@[5] == 'n' && "zh-Hans"@[6] == 's');
            reveal_strlit("zh-Hant");
            assert("zh-Hant"@[0] == 'z' && "zh-Hant"@[1] == 'h' && "zh-Hant"@[2] == '-' && "zh-Hant"@[3] == 'H' && "zh-Hant"@[4] == 'a' && "zh-Hant"@[5] == 'n' && "zh-Hant"@[6] == 't');
            reveal_strlit("en");
            assert("en"@[0] == 'e' && "en"@[1] == 'n');
            reveal_strlit("ja");
            assert("ja"@[0] == 'j' && "ja"@[1] == 'a');
            reveal_strlit("ko");
            assert("ko"@[0] == 'k' && "ko"@[1] == 'o');
            reveal_strlit("pt-br");
            assert("pt-br"@[0] == 'p' && "pt-br"@[1] == 't' && "pt-br"@[2] == '-' && "pt-br"@[3] == 'b' && "pt-br"@[4] == 'r');
            reveal_strlit("pt-pt");
            assert("pt-pt"@[0] == 'p' && "pt-pt"@[1] == 't' && "pt-pt"@[2] == '-' && "pt-pt"@[3] == 'p' && "pt-pt"@[4] == 't');
            reveal_strlit("ru");
            assert("ru"@[0] == 'r' && "ru"@[1] == 'u');
            reveal_strlit("es");
            assert("es"@[0] == 'e' && "es"@[1] == 's');
        }
        if same_text(code, "zh") || same_text(code, "zh-Hans") || same_text(code, "zh-Hant") {
            Language::Chinese
        } else if same_text(code, "en") {
            Language::English
        } else if same_text(code, "ja") {
            Language::Japanese
        } else if same_text(code, "ko") {
            Language::Korean
        } else if same_text(code, "pt-br") || same_text(code, "pt-pt") {
            Language::Portuguese
        } else if same_text(code, "ru") {
            Language::Russian
        } else if same_text(code, "es") {
            Language::Spanish
        } else {
            Language::Unknown(code.to_owned())
        }
    }
}

/// The value lists of the schema.
#[derive(Clone, Debug)]
pub struct SchemaEnum {
    pub language: serde_json::Value,
    pub medium: serde_json::Value,
    pub platform: serde_json::Value,
    pub staff_role: serde_json::Value,
}

/// The schema of the API.
#[derive(Clone, Debug)]
pub struct Schema {
    pub api_fields: serde_json::Value,
    pub enums: SchemaEnum,
    pub extlinks: serde_json::Value,
}

} // verus!
