//! The two languages cian speaks, and picking a message in one of them.
use vstd::prelude::*;

use crate::text::{cat, cat3};

verus! {

/// The interface language.
#[derive(Clone, Copy, Debug, PartialEq, Eq, Structural)]
pub enum Lang {
    En,
    Ja,
}

/// The message for `lang`: `en` in English, `ja` in Japanese.
pub open spec fn tr_spec(lang: Lang, en: Seq<char>, ja: Seq<char>) -> Seq<char> {
    match lang {
        Lang::En => en,
        Lang::Ja => ja,
    }
}

/// Pick the English or Japanese form of a message.
pub fn tr<'a>(lang: Lang, en: &'a str, ja: &'a str) -> (out: &'a str)
    ensures
        out@ == tr_spec(lang, en@, ja@),
{
    match lang {
        Lang::En => en,
        Lang::Ja => ja,
    }
}

/// `tr`, as an owned `String`.
pub fn tr_string(lang: Lang, en: &str, ja: &str) -> (out: String)
    ensures
        out@ == tr_spec(lang, en@, ja@),
{
    tr(lang, en, ja).to_owned()
}

/// A message in `lang` that ends with the characters `tail`.
pub fn tr_with(lang: Lang, en: &str, ja: &str, tail: &[char]) -> (out: String)
    ensures
        out@ == tr_spec(lang, en@ + tail@, ja@ + tail@),
{
    match lang {
        Lang::En => cat(en, tail),
        Lang::Ja => cat(ja, tail),
    }
}

/// A message in `lang` with the characters `mid` between two fixed parts.
pub fn tr_around(lang: Lang, en: (&str, &str), ja: (&str, &str), mid: &[char]) -> (out: String)
    ensures
        out@ == tr_spec(lang, en.0@ + mid@ + en.1@, ja.0@ + mid@ + ja.1@),
{
    match lang {
        Lang::En => cat3(en.0, mid, en.1),
        Lang::Ja => cat3(ja.0, mid, ja.1),
    }
}

} // verus!
