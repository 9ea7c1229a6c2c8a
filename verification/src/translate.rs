//! Machine translation of a release's description: which languages are
//! translated, what is sent to the translation service and what is done with
//! its answers.
use crate::config::{get_checked, var_value};
use crate::ordered_map::{insert_text, text_entries, text_insert_all, OrderedMap, TextEntries};
use crate::text::{concat3, lowercase, starts_with, to_lowercase};
use vstd::prelude::*;
use vstd::string::*;
use vstd::utf8::{decode_utf8, valid_utf8};

verus! {

/// What is shown above a translated description, in English.
pub const NOTE_TEXT: &'static str =
    "The description has been automatically translated by machine translation. Click here to view in English: ";

/// Why a text was not translated.
pub enum TranslateError {
    /// The translation service failed.
    AwsError(String),
    /// The service returned no document.
    NoDocument,
    /// The document is no UTF-8 text.
    Utf8Error,
    /// The language is not supported.
    UnsupportedLang,
}

/// The language codes that the translation service knows.
pub open spec fn supported_langs() -> Seq<Seq<char>> {
    seq![
        "af"@, "sq"@, "am"@, "ar"@, "hy"@, "az"@, "bn"@, "bs"@, "bg"@, "ca"@, "zh"@, "zh-TW"@, "hr"@,
        "cs"@, "da"@, "fa-AF"@, "nl"@, "en"@, "et"@, "fa"@, "tl"@, "fi"@, "fr"@, "fr-CA"@, "ka"@,
        "de"@, "el"@, "gu"@, "ht"@, "ha"@, "he"@, "hi"@, "hu"@, "is"@, "id"@, "ga"@, "it"@, "ja"@,
        "kn"@, "kk"@, "ko"@, "lv"@, "lt"@, "mk"@, "ms"@, "ml"@, "mt"@, "mr"@, "mn"@, "no"@, "ps"@,
        "pl"@, "pt"@, "pt-PT"@, "pa"@, "ro"@, "ru"@, "sr"@, "si"@, "sk"@, "sl"@, "so"@, "es"@,
        "es-MX"@, "sw"@, "sv"@, "ta"@, "te"@, "th"@, "tr"@, "uk"@, "ur"@, "uz"@, "vi"@, "cy"@,
    ]
}

/// The language codes that the translation service knows.
pub fn supported_lang_list() -> (r: Vec<&'static str>)
    ensures
        r@.len() == supported_langs().len(),
        forall|i: int| 0 <= i < r@.len() ==> (#[trigger] r@[i])@ == supported_langs()[i],
{
    vec![
        "af", "sq", "am", "ar", "hy", "az", "bn", "bs", "bg", "ca", "zh", "zh-TW", "hr", "cs", "da",
        "fa-AF", "nl", "en", "et", "fa", "tl", "fi", "fr", "fr-CA", "ka", "de", "el", "gu", "ht", "ha",
        "he", "hi", "hu", "is", "id", "ga", "it", "ja", "kn", "kk", "ko", "lv", "lt", "mk", "ms", "ml",
        "mt", "mr", "mn", "no", "ps", "pl", "pt", "pt-PT", "pa", "ro", "ru", "sr", "si", "sk", "sl",
        "so", "es", "es-MX", "sw", "sv", "ta", "te", "th", "tr", "uk", "ur", "uz", "vi", "cy",
    ]
}

/// Whether the translation service knows `code`.
pub fn is_supported_code(code: &str) -> (r: bool)
    ensures
        r == supported_langs().contains(code@),
{
    let list = supported_lang_list();
    let mut i: usize = 0;
    while i < list.len()
        invariant
            i <= list.len(),
            list@.len() == supported_langs().len(),
            forall|k: int| 0 <= k < list@.len() ==> (#[trigger] list@[k])@ == supported_langs()[k],
            forall|k: int| 0 <= k < i ==> supported_langs()[k] != code@,
        decreases list.len() - i,
    {
        if list[i].eq(code) {
            assert(supported_langs()[i as int] == code@);
            return true;
        }
        i = i + 1;
    }
    false
}

/// Whether texts can be translated to `lang`: the language or the language of
/// its first two characters is one that the service knows.
pub open spec fn lang_supported(lang: Seq<char>) -> bool {
    lang.len() >= 2 && (supported_langs().contains(lang) || supported_langs().contains(
        lang.subrange(0, 2),
    ))
}

/// Whether texts can be translated to `lang`.
pub fn is_lang_supported(lang: &str) -> (r: bool)
    ensures
        r == lang_supported(lang@),
{
    if lang.unicode_len() < 2 {
        return false;
    }
    is_supported_code(lang) || is_supported_code(lang.substring_char(0, 2))
}

/// Whether a description is translated for a reader who asks for `lang`:
/// not for English in any of its variants.
pub open spec fn wants_translation(lang: Seq<char>) -> bool {
    !(lowercase(lang) == "en"@ || "en-"@.is_prefix_of(lowercase(lang)))
}

/// Whether a description is translated for a reader who asks for `lang`.
pub fn needs_translation(lang: &str) -> (r: bool)
    ensures
        r == wants_translation(lang@),
{
    let lang_lower = to_lowercase(lang);
    !(lang_lower.as_str().eq("en") || starts_with(lang_lower.as_str(), "en-"))
}

/// The content type under which a text is sent to the service.
pub fn content_type(is_html: bool) -> (r: &'static str)
    ensures
        r@ == if is_html {
            "text/html"@
        } else {
            "text/plain"@
        },
{
    if is_html {
        "text/html"
    } else {
        "text/plain"
    }
}

/// The key under which a translation is cached.
pub fn translate_cache_key(lang: &str, is_html: bool, input: &str) -> (r: String)
    ensures
        r@ == lang@ + "::"@ + (if is_html {
            "true"@
        } else {
            "false"@
        }) + "::"@ + input@,
{
    let flag = if is_html {
        "true"
    } else {
        "false"
    };
    let mut key = concat3(lang, "::", flag);
    key.append("::");
    key.append(input);
    key
}

/// `String::from_utf8` from the standard library: the text that the bytes
/// encode, or `None` where they are no valid UTF-8.
#[verifier::external_body]
fn string_from_utf8(bytes: Vec<u8>) -> (r: Option<String>)
    ensures
        r is Some <==> valid_utf8(bytes@),
        r is Some ==> r->0@ == decode_utf8(bytes@),
{
    String::from_utf8(bytes).ok()
}

/// The text of the document that the service returned.
pub fn translated_document(content: Option<Vec<u8>>) -> (r: Result<String, TranslateError>)
    ensures
        match content {
            None => r matches Err(TranslateError::NoDocument),
            Some(bytes) => if valid_utf8(bytes@) {
                r matches Ok(text) && text@ == decode_utf8(bytes@)
            } else {
                r matches Err(TranslateError::Utf8Error)
            },
        },
{
    match content {
        None => Err(TranslateError::NoDocument),
        Some(bytes) => match string_from_utf8(bytes) {
            Some(text) => Ok(text),
            None => Err(TranslateError::Utf8Error),
        },
    }
}

/// Whether `translate` may give `translated` for the text `text`.
pub open spec fn translates<F: Fn(&str, &str, bool) -> Result<String, TranslateError>>(
    translate: F,
    lang: &str,
    text: Seq<char>,
    is_html: bool,
    translated: Seq<char>,
) -> bool {
    exists|input: &str, output: String|
        input@ == text && output@ == translated && #[trigger] call_ensures(
            translate,
            (lang, input, is_html),
            Ok::<String, TranslateError>(output),
        )
}

/// Whether `pairs` holds a translation of each entry: the key as plain text, the
/// value as HTML.
pub open spec fn translated_entries<F: Fn(&str, &str, bool) -> Result<String, TranslateError>>(
    translate: F,
    lang: &str,
    entries: TextEntries,
    pairs: TextEntries,
) -> bool {
    &&& pairs.len() == entries.len()
    &&& forall|i: int|
        0 <= i < entries.len() ==> translates(translate, lang, entries[i].0, false, (#[trigger] pairs[i]).0)
            && translates(translate, lang, entries[i].1, true, pairs[i].1)
}

/// Translates what a release page says into `lang`, with `translate` doing each
/// single translation. English is left as it is. Otherwise the note about the
/// translation is set, in `lang` and in English, the description is translated
/// as HTML, and every additional description gets its label translated as text
/// and its content as HTML. The first translation that fails ends the work with
/// its error; the additional descriptions are then as they were.
pub fn translate_artifact_release<F: Fn(&str, &str, bool) -> Result<String, TranslateError>>(
    lang: &str,
    translate: F,
    description: &mut Option<String>,
    extra_description: &mut OrderedMap<String>,
    translate_note_text_en: &mut Option<String>,
    translate_note_text: &mut Option<String>,
) -> (r: Result<(), TranslateError>)
    requires
        forall|text: &str, is_html: bool| call_requires(translate, (lang, text, is_html)),
    ensures
        !wants_translation(lang@) ==> {
            &&& r is Ok
            &&& *final(description) == *old(description)
            &&& *final(extra_description) == *old(extra_description)
            &&& *final(translate_note_text_en) == *old(translate_note_text_en)
            &&& *final(translate_note_text) == *old(translate_note_text)
        },
        wants_translation(lang@) && r is Ok ==> {
            &&& *final(translate_note_text_en) matches Some(note) && note@ == NOTE_TEXT@
            &&& *final(translate_note_text) matches Some(note) && translates(
                translate,
                lang,
                NOTE_TEXT@,
                false,
                note@,
            )
            &&& match *old(description) {
                Some(text) => *final(description) matches Some(translated) && translates(
                    translate,
                    lang,
                    text@,
                    true,
                    translated@,
                ),
                None => *final(description) is None,
            }
            &&& exists|pairs: TextEntries| #[trigger]
                translated_entries(translate, lang, text_entries(*old(extra_description)), pairs)
                    && text_entries(*final(extra_description)) == text_insert_all(Seq::empty(), pairs)
        },
        r is Err ==> *final(extra_description) == *old(extra_description),
{
    if !needs_translation(lang) {
        return Ok(());
    }
    let note = match translate(lang, NOTE_TEXT, false) {
        Ok(note) => note,
        Err(e) => {
            return Err(e);
        },
    };
    *translate_note_text = Some(note);
    *translate_note_text_en = Some(String::from_str(NOTE_TEXT));
    if let Some(text) = description {
        let translated = match translate(lang, text.as_str(), true) {
            Ok(translated) => translated,
            Err(e) => {
                return Err(e);
            },
        };
        *description = Some(translated);
    }
    let n = extra_description.len();
    let mut new_extra_description: OrderedMap<String> = OrderedMap::new();
    let ghost mut pairs: TextEntries = Seq::empty();
    let ghost entries = text_entries(*extra_description);
    proof {
        assert(text_entries(new_extra_description) =~= Seq::empty());
        assert(text_insert_all(Seq::empty(), pairs) == Seq::<(Seq<char>, Seq<char>)>::empty());
    }
    let mut i: usize = 0;
    while i < n
        invariant
            wants_translation(lang@),
            i <= n,
            n == extra_description.keys().len(),
            extra_description.wf(),
            entries == text_entries(*extra_description),
            forall|text: &str, is_html: bool| call_requires(translate, (lang, text, is_html)),
            pairs.len() == i,
            forall|k: int|
                0 <= k < i ==> translates(translate, lang, entries[k].0, false, (#[trigger] pairs[k]).0)
                    && translates(translate, lang, entries[k].1, true, pairs[k].1),
            text_entries(new_extra_description) == text_insert_all(Seq::empty(), pairs),
        decreases n - i,
    {
        let key = match translate(lang, extra_description.key_at(i).as_str(), false) {
            Ok(key) => key,
            Err(e) => {
                return Err(e);
            },
        };
        let value = match translate(lang, extra_description.value_at(i).as_str(), true) {
            Ok(value) => value,
            Err(e) => {
                return Err(e);
            },
        };
        proof {
            let longer = pairs.push((key@, value@));
            assert(longer.drop_last() =~= pairs);
            assert(longer.last() == (key@, value@));
            assert(entries[i as int].0 == extra_description.keys()[i as int]);
            assert(entries[i as int].1 == extra_description.values()[i as int]@);
            pairs = longer;
        }
        insert_text(&mut new_extra_description, key, value);
        i = i + 1;
    }
    proof {
        assert(translated_entries(translate, lang, entries, pairs));
    }
    *extra_description = new_extra_description;
    Ok(())
}

/// What becomes of the service's answer: its error, or the text of the
/// document that it returned.
pub open spec fn translation_of(
    answer: Result<Option<Vec<u8>>, TranslateError>,
    r: Result<String, TranslateError>,
) -> bool {
    match answer {
        Err(e) => r == Err::<String, TranslateError>(e),
        Ok(None) => r matches Err(TranslateError::NoDocument),
        Ok(Some(bytes)) => if valid_utf8(bytes@) {
            r matches Ok(text) && text@ == decode_utf8(bytes@)
        } else {
            r matches Err(TranslateError::Utf8Error)
        },
    }
}

/// Translates one text from English into `lang`. `send` hands the text to the
/// translation service, with the language and the content type, and brings back
/// the content of the document that the service returned. A language that the
/// service does not know is refused before anything is sent.
pub fn do_translate<F: Fn(&str, &str, &str) -> Result<Option<Vec<u8>>, TranslateError>>(
    lang: &str,
    input: &str,
    is_html: bool,
    send: F,
) -> (r: Result<String, TranslateError>)
    requires
        forall|content_type: &str| call_requires(send, (lang, content_type, input)),
    ensures
        !lang_supported(lang@) ==> r matches Err(TranslateError::UnsupportedLang),
        lang_supported(lang@) ==> exists|content_type: &str, answer: Result<Option<Vec<u8>>, TranslateError>|
            {
                &&& content_type@ == if is_html {
                    "text/html"@
                } else {
                    "text/plain"@
                }
                &&& #[trigger] call_ensures(send, (lang, content_type, input), answer)
                &&& translation_of(answer, r)
            },
{
    if !is_lang_supported(lang) {
        return Err(TranslateError::UnsupportedLang);
    }
    let kind = content_type(is_html);
    let answer = send(lang, kind, input);
    let ghost asked = answer;
    let r = match answer {
        Ok(content) => translated_document(content),
        Err(e) => Err(e),
    };
    proof {
        assert(call_ensures(send, (lang, kind, input), asked));
        assert(translation_of(asked, r));
    }
    r
}

/// Translates a plain text.
pub fn translate_str<F: Fn(&str, &str, &str) -> Result<Option<Vec<u8>>, TranslateError>>(
    lang: &str,
    input: &str,
    send: F,
) -> (r: Result<String, TranslateError>)
    requires
        forall|content_type: &str| call_requires(send, (lang, content_type, input)),
    ensures
        !lang_supported(lang@) ==> r matches Err(TranslateError::UnsupportedLang),
        lang_supported(lang@) ==> exists|content_type: &str, answer: Result<Option<Vec<u8>>, TranslateError>|
            {
                &&& content_type@ == "text/plain"@
                &&& #[trigger] call_ensures(send, (lang, content_type, input), answer)
                &&& translation_of(answer, r)
            },
{
    do_translate(lang, input, false, send)
}

/// Translates an HTML text.
pub fn translate_html<F: Fn(&str, &str, &str) -> Result<Option<Vec<u8>>, TranslateError>>(
    lang: &str,
    input: &str,
    send: F,
) -> (r: Result<String, TranslateError>)
    requires
        forall|content_type: &str| call_requires(send, (lang, content_type, input)),
    ensures
        !lang_supported(lang@) ==> r matches Err(TranslateError::UnsupportedLang),
        lang_supported(lang@) ==> exists|content_type: &str, answer: Result<Option<Vec<u8>>, TranslateError>|
            {
                &&& content_type@ == "text/html"@
                &&& #[trigger] call_ensures(send, (lang, content_type, input), answer)
                &&& translation_of(answer, r)
            },
{
    do_translate(lang, input, true, send)
}

pub const TRANSLATE_AWS_ACCESS_KEY_ID_VAR: &'static str = "DEPBOX_TRANSLATE_AWS_ACCESS_KEY_ID";

pub const TRANSLATE_AWS_SECRET_ACCESS_KEY_VAR: &'static str = "DEPBOX_TRANSLATE_AWS_SECRET_ACCESS_KEY";

/// The name under which the credentials are handed to the translation service.
pub const CREDENTIALS_PROVIDER_NAME: &'static str = "deposit_box_env_provider";

/// The credentials for the translation service.
pub struct TranslateConfig {
    pub key_id: String,
    pub secret_access_key: String,
}

impl TranslateConfig {
    /// The credentials that the environment holds; `None` where the key's id or
    /// the key is not set, and the translation service is not used.
    pub fn get(vars: &Vec<(String, String)>) -> (r: Option<Self>)
        ensures
            match r {
                Some(config) => var_value(vars@, TRANSLATE_AWS_ACCESS_KEY_ID_VAR@) == Some(config.key_id@)
                    && var_value(vars@, TRANSLATE_AWS_SECRET_ACCESS_KEY_VAR@) == Some(
                    config.secret_access_key@,
                ),
                None => var_value(vars@, TRANSLATE_AWS_ACCESS_KEY_ID_VAR@) is None || var_value(
                    vars@,
                    TRANSLATE_AWS_SECRET_ACCESS_KEY_VAR@,
                ) is None,
            },
    {
        let key_id = get_checked(vars, TRANSLATE_AWS_ACCESS_KEY_ID_VAR);
        let key = get_checked(vars, TRANSLATE_AWS_SECRET_ACCESS_KEY_VAR);
        match (key_id, key) {
            (Some(key_id), Some(key)) => Some(
                TranslateConfig {
                    key_id: String::from_str(key_id),
                    secret_access_key: String::from_str(key),
                },
            ),
            _ => None,
        }
    }
}

} // verus!
