//! The string tables and the per-language lookup without English fallback.
pub mod en_us;
pub mod fr;
pub mod pt;

use vstd::prelude::*;

use crate::text_key::TextKey;

verus! {

pub const LANG_CHINESE: u16 = 0x04;
pub const LANG_GERMAN: u16 = 0x07;
pub const LANG_SPANISH: u16 = 0x0a;
pub const LANG_FRENCH: u16 = 0x0c;
pub const LANG_PORTUGUESE: u16 = 0x16;
pub const LANG_RUSSIAN: u16 = 0x19;

/// The user-interface languages the program recognises.
#[derive(Clone, Copy, PartialEq, Eq, Structural, Debug)]
pub enum UiLanguage {
    EnUs,
    ZhCn,
    ZhTw,
    Ru,
    De,
    Fr,
    Pt,
    Es,
}

/// Primary language of a Windows language identifier (its low ten bits).
pub open spec fn primary_language(lang_id: u16) -> int {
    lang_id as int % 0x400
}

/// Sub-language of a Windows language identifier (its six bits above the primary language).
pub open spec fn sub_language(lang_id: u16) -> int {
    (lang_id as int / 0x400) % 0x40
}

/// The language that a Windows user-interface language identifier selects.
pub open spec fn spec_language_from_lang_id(lang_id: u16) -> UiLanguage {
    let primary = primary_language(lang_id);
    let sub = sub_language(lang_id);
    if primary == LANG_CHINESE {
        if sub == 1 || sub == 3 || sub == 5 {
            UiLanguage::ZhTw
        } else {
            UiLanguage::ZhCn
        }
    } else if primary == LANG_RUSSIAN {
        UiLanguage::Ru
    } else if primary == LANG_GERMAN {
        UiLanguage::De
    } else if primary == LANG_FRENCH {
        UiLanguage::Fr
    } else if primary == LANG_PORTUGUESE {
        UiLanguage::Pt
    } else if primary == LANG_SPANISH {
        UiLanguage::Es
    } else {
        UiLanguage::EnUs
    }
}

/// Decodes the user's default user-interface language identifier.
pub fn language_from_lang_id(lang_id: u16) -> (r: UiLanguage)
    ensures
        r == spec_language_from_lang_id(lang_id),
{
    let primary = lang_id & 0x03ff;
    let sub = (lang_id >> 10) & 0x003f;
    assert(lang_id & 0x03ff == lang_id % 0x400) by (bit_vector);
    assert((lang_id >> 10) & 0x003f == (lang_id / 0x400) % 0x40) by (bit_vector);
    if primary == LANG_CHINESE {
        if sub == 0x01 || sub == 0x03 || sub == 0x05 {
            UiLanguage::ZhTw
        } else {
            UiLanguage::ZhCn
        }
    } else if primary == LANG_RUSSIAN {
        UiLanguage::Ru
    } else if primary == LANG_GERMAN {
        UiLanguage::De
    } else if primary == LANG_FRENCH {
        UiLanguage::Fr
    } else if primary == LANG_PORTUGUESE {
        UiLanguage::Pt
    } else if primary == LANG_SPANISH {
        UiLanguage::Es
    } else {
        UiLanguage::EnUs
    }
}

/// The numbered string of `language`'s table (English for the languages without a table).
pub open spec fn table_resource(language: UiLanguage, id: u32) -> &'static str {
    match language {
        UiLanguage::Fr => fr::spec_resource(id),
        UiLanguage::Pt => pt::spec_resource(id),
        _ => en_us::spec_resource(id),
    }
}

/// The text of `key` in `language`'s table (English for the languages without a table).
pub open spec fn table_text(language: UiLanguage, key: TextKey) -> &'static str {
    match language {
        UiLanguage::Fr => fr::spec_text(key),
        UiLanguage::Pt => pt::spec_text(key),
        _ => en_us::spec_text(key),
    }
}

/// Looks up a numbered string in `language`'s table only.
pub fn localized_string(language: UiLanguage, id: u32) -> (r: Option<&'static str>)
    ensures
        r == (if table_resource(language, id)@.len() == 0 {
            None
        } else {
            Some(table_resource(language, id))
        }),
{
    let text = match language {
        UiLanguage::Fr => fr::resource(id),
        UiLanguage::Pt => pt::resource(id),
        _ => en_us::resource(id),
    };
    if text.is_empty() {
        None
    } else {
        Some(text)
    }
}

/// The text of a key in `language`.
pub fn text(language: UiLanguage, key: TextKey) -> (r: &'static str)
    ensures
        r == table_text(language, key),
{
    match language {
        UiLanguage::Fr => fr::text(key),
        UiLanguage::Pt => pt::text(key),
        _ => en_us::text(key),
    }
}

/// No text key is ever shown empty, whatever the language.
pub proof fn lemma_table_text_nonempty(language: UiLanguage, key: TextKey)
    ensures
        table_text(language, key)@.len() > 0,
{
    en_us::lemma_text_nonempty(key);
    fr::lemma_text_nonempty(key);
    pt::lemma_text_nonempty(key);
}

} // verus!
