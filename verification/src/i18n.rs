//! The languages of the interface. Each language has a file of strings,
//! named after it; the system's locale picks among them.

use vstd::prelude::*;
use vstd::string::StrSliceExecFns;
use crate::text::{contains_text, lowercase_of, owned, str_eq, to_lowercase};

verus! {

/// The language that is always there.
pub const DEFAULT_LANGUAGE: &'static str = "en";

/// The locale of the system, by `sys_locale::get_locale`. It is read from
/// the environment: nothing is stated of it.
#[verifier::external_body]
fn system_locale() -> (locale: Option<String>) {
    sys_locale::get_locale()
}

/// The language that a file of strings is for: its name without the ending
/// `.json`, if it has that ending.
pub open spec fn language_of_file(name: Seq<char>) -> Option<Seq<char>> {
    let ending = ".json"@;
    if name.len() >= ending.len() && name.subrange(name.len() - ending.len(), name.len() as int)
        == ending {
        Some(name.subrange(0, name.len() - ending.len()))
    } else {
        None
    }
}

/// The languages that the files of `names` are for, in the order of the
/// files.
pub open spec fn languages_of_files(names: Seq<Seq<char>>) -> Seq<Seq<char>>
    decreases names.len(),
{
    if names.len() == 0 {
        Seq::empty()
    } else {
        let before = languages_of_files(names.drop_last());
        match language_of_file(names.last()) {
            Some(language) => before.push(language),
            None => before,
        }
    }
}

/// The languages on offer, given the names of the files in the directory
/// of strings: one for each file that ends in `.json`, and the default
/// language alone where there is no such file.
pub open spec fn supported_languages(names: Seq<Seq<char>>) -> Seq<Seq<char>> {
    if languages_of_files(names).len() == 0 {
        seq![DEFAULT_LANGUAGE@]
    } else {
        languages_of_files(names)
    }
}

/// Whether the character parts a language from the rest of a locale.
pub open spec fn is_separator(c: char) -> bool {
    c == '_' || c == '-'
}

/// The number of characters in front of the first separator of `tag`.
pub open spec fn language_len(tag: Seq<char>) -> nat
    decreases tag.len(),
{
    if tag.len() == 0 || is_separator(tag[0]) {
        0
    } else {
        1 + language_len(tag.drop_first())
    }
}

/// The language of a locale: what stands in front of its first `_` or `-`.
pub open spec fn language_of(tag: Seq<char>) -> Seq<char> {
    tag.subrange(0, language_len(tag) as int)
}

/// The language of the interface for a system whose locale is `locale`:
/// the language of the locale in lower case, if it is on offer, and the
/// default language otherwise. A system without a locale counts as one with
/// the default language.
pub open spec fn locale_for(locale: Option<Seq<char>>, supported: Seq<Seq<char>>) -> Seq<char> {
    let tag = lowercase_of(
        match locale {
            Some(l) => l,
            None => DEFAULT_LANGUAGE@,
        },
    );
    if supported.contains(language_of(tag)) {
        language_of(tag)
    } else {
        DEFAULT_LANGUAGE@
    }
}

/// The language that the file named `name` is for.
pub fn language_of_file_name(name: &str) -> (language: Option<String>)
    ensures
        language.deep_view() == language_of_file(name@),
{
    proof {
        reveal_strlit(".json");
    }
    let len = name.unicode_len();
    if len < 5 {
        return None;
    }
    if str_eq(name.substring_char(len - 5, len), ".json") {
        Some(owned(name.substring_char(0, len - 5)))
    } else {
        None
    }
}

/// The languages on offer, given the names of the files in the directory
/// of strings.
pub fn get_supported_languages(file_names: &Vec<String>) -> (languages: Vec<String>)
    ensures
        languages.deep_view() == supported_languages(file_names.deep_view()),
{
    let mut languages: Vec<String> = Vec::new();
    let mut i: usize = 0;
    assert(file_names.deep_view().take(0) =~= Seq::<Seq<char>>::empty());
    assert(languages.deep_view() =~= Seq::<Seq<char>>::empty());
    while i < file_names.len()
        invariant
            i <= file_names.len(),
            languages.deep_view() == languages_of_files(file_names.deep_view().take(i as int)),
        decreases file_names.len() - i,
    {
        let ghost before = languages.deep_view();
        let ghost names = file_names.deep_view();
        proof {
            assert(names.take(i + 1).drop_last() =~= names.take(i as int));
            assert(names.take(i + 1).last() == file_names[i as int]@);
        }
        match language_of_file_name(file_names[i].as_str()) {
            Some(language) => {
                languages.push(language);
                assert(languages.deep_view() =~= before.push(language@));
            },
            None => {},
        }
        i += 1;
    }
    assert(file_names.deep_view().take(i as int) =~= file_names.deep_view());
    if languages.len() == 0 {
        languages.push(owned(DEFAULT_LANGUAGE));
        assert(languages.deep_view() =~= seq![DEFAULT_LANGUAGE@]);
    }
    languages
}

/// The language of the locale `tag`.
pub fn language_of_tag(tag: &str) -> (language: String)
    ensures
        language@ == language_of(tag@),
{
    let len = tag.unicode_len();
    let mut i: usize = 0;
    proof {
        assert(tag@.skip(0) =~= tag@);
    }
    while i < len
        invariant
            i <= len == tag@.len(),
            language_len(tag@) == i + language_len(tag@.skip(i as int)),
        ensures
            i <= len == tag@.len(),
            language_len(tag@) == i,
        decreases len - i,
    {
        let c = tag.get_char(i);
        proof {
            assert(tag@.skip(i as int)[0] == c);
            assert(tag@.skip(i as int).drop_first() =~= tag@.skip(i + 1));
        }
        if c == '_' || c == '-' {
            break;
        }
        i += 1;
    }
    owned(tag.substring_char(0, i))
}

/// The language of the interface for a system whose locale is `locale`,
/// given the languages on offer.
pub fn pick_locale(locale: Option<String>, supported: &Vec<String>) -> (language: String)
    ensures
        language@ == locale_for(locale.deep_view(), supported.deep_view()),
{
    let tag = match &locale {
        Some(l) => to_lowercase(l.as_str()),
        None => to_lowercase(DEFAULT_LANGUAGE),
    };
    let language = language_of_tag(tag.as_str());
    if contains_text(supported, language.as_str()) {
        language
    } else {
        owned(DEFAULT_LANGUAGE)
    }
}

/// The language of the interface on this system, given the languages on
/// offer: one of them, or the default language.
pub fn get_system_locale(supported: &Vec<String>) -> (language: String)
    ensures
        supported.deep_view().contains(language@) || language@ == DEFAULT_LANGUAGE@,
{
    pick_locale(system_locale(), supported)
}

} // verus!
