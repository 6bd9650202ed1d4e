//! Display languages: digit glyph substitution, text direction, and the
//! codes under which a language is stored in configuration.

use vstd::prelude::*;
use crate::text::string_push;
use crate::text::str_eq;

verus! {

/// The supported display languages.
#[derive(Debug, Clone, Copy, PartialEq, Eq, Structural)]
pub enum Language {
    English,
    Farsi,
    Chinese,
    Arabic,
}

/// Western digits replaced by the language's own digit glyphs; the identity
/// for languages written with Western digits.
pub open spec fn localize_digit(lang: Language, c: char) -> char {
    match lang {
        Language::Farsi => {
            if c == '0' {
                '\u{6f0}'
            } else if c == '1' {
                '\u{6f1}'
            } else if c == '2' {
                '\u{6f2}'
            } else if c == '3' {
                '\u{6f3}'
            } else if c == '4' {
                '\u{6f4}'
            } else if c == '5' {
                '\u{6f5}'
            } else if c == '6' {
                '\u{6f6}'
            } else if c == '7' {
                '\u{6f7}'
            } else if c == '8' {
                '\u{6f8}'
            } else if c == '9' {
                '\u{6f9}'
            } else {
                c
            }
        },
        Language::Arabic => {
            if c == '0' {
                '\u{660}'
            } else if c == '1' {
                '\u{661}'
            } else if c == '2' {
                '\u{662}'
            } else if c == '3' {
                '\u{663}'
            } else if c == '4' {
                '\u{664}'
            } else if c == '5' {
                '\u{665}'
            } else if c == '6' {
                '\u{666}'
            } else if c == '7' {
                '\u{667}'
            } else if c == '8' {
                '\u{668}'
            } else if c == '9' {
                '\u{669}'
            } else {
                c
            }
        },
        _ => c,
    }
}

/// Digit substitution applied over a whole character sequence.
pub open spec fn localized_digits(lang: Language, s: Seq<char>) -> Seq<char> {
    s.map_values(|c: char| localize_digit(lang, c))
}

fn localize_digit_exec(lang: &Language, c: char) -> (r: char)
    ensures
        r == localize_digit(*lang, c),
{
    match lang {
        Language::Farsi => {
            if c == '0' {
                '\u{6f0}'
            } else if c == '1' {
                '\u{6f1}'
            } else if c == '2' {
                '\u{6f2}'
            } else if c == '3' {
                '\u{6f3}'
            } else if c == '4' {
                '\u{6f4}'
            } else if c == '5' {
                '\u{6f5}'
            } else if c == '6' {
                '\u{6f6}'
            } else if c == '7' {
                '\u{6f7}'
            } else if c == '8' {
                '\u{6f8}'
            } else if c == '9' {
                '\u{6f9}'
            } else {
                c
            }
        },
        Language::Arabic => {
            if c == '0' {
                '\u{660}'
            } else if c == '1' {
                '\u{661}'
            } else if c == '2' {
                '\u{662}'
            } else if c == '3' {
                '\u{663}'
            } else if c == '4' {
                '\u{664}'
            } else if c == '5' {
                '\u{665}'
            } else if c == '6' {
                '\u{666}'
            } else if c == '7' {
                '\u{667}'
            } else if c == '8' {
                '\u{668}'
            } else if c == '9' {
                '\u{669}'
            } else {
                c
            }
        },
        _ => c,
    }
}

/// The two-letter tag a language is stored under.
pub open spec fn spec_lang_tag(lang: Language) -> Seq<char> {
    match lang {
        Language::English => "en"@,
        Language::Farsi => "fa"@,
        Language::Chinese => "cn"@,
        Language::Arabic => "ar"@,
    }
}

/// The direction a language is written in, as a style tag.
pub open spec fn spec_default_direction(lang: Language) -> Seq<char> {
    match lang {
        Language::English => "ltr"@,
        Language::Farsi => "rtl"@,
        Language::Chinese => "ltr"@,
        Language::Arabic => "rtl"@,
    }
}

impl Language {
    /// Replace Western digits in `s` by the language's own digit glyphs;
    /// all other characters pass through unchanged.
    pub fn change_numbers_language(&self, s: &str) -> (r: String)
        ensures
            r@ == localized_digits(*self, s@),
    {
        let n = s.unicode_len();
        let mut out = String::new();
        let mut i: usize = 0;
        while i < n
            invariant
                0 <= i <= n,
                n == s@.len(),
                out@.len() == i,
                forall|j: int| 0 <= j < i ==> out@[j] == localize_digit(*self, s@[j]),
            decreases n - i,
        {
            let c = s.get_char(i);
            string_push(&mut out, localize_digit_exec(self, c));
            i += 1;
        }
        proof {
            assert(out@ =~= localized_digits(*self, s@));
        }
        out
    }

    /// The default text direction of the language.
    pub fn default_direction(&self) -> (r: String)
        ensures
            r@ == spec_default_direction(*self),
    {
        match self {
            Language::English => String::from_str("ltr"),
            Language::Farsi => String::from_str("rtl"),
            Language::Chinese => String::from_str("ltr"),
            Language::Arabic => String::from_str("rtl"),
        }
    }

    /// The language stored under a numeric code; English for any unknown
    /// code.
    pub fn from_code(code: i32) -> (r: Language)
        ensures
            code == 1 ==> r == Language::English,
            code == 2 ==> r == Language::Farsi,
            code == 3 ==> r == Language::Chinese,
            code == 4 ==> r == Language::Arabic,
            !(1 <= code <= 4) ==> r == Language::English,
    {
        if code == 2 {
            Language::Farsi
        } else if code == 3 {
            Language::Chinese
        } else if code == 4 {
            Language::Arabic
        } else {
            Language::English
        }
    }

    /// The language stored under a two-letter tag; English for any unknown
    /// tag.
    pub fn from_tag(tag: &str) -> (r: Language)
        ensures
            r == (if tag@ == "fa"@ {
                Language::Farsi
            } else if tag@ == "cn"@ {
                Language::Chinese
            } else if tag@ == "ar"@ {
                Language::Arabic
            } else {
                Language::English
            }),
    {
        if str_eq(tag, "fa") {
            Language::Farsi
        } else if str_eq(tag, "cn") {
            Language::Chinese
        } else if str_eq(tag, "ar") {
            Language::Arabic
        } else {
            Language::English
        }
    }

    /// The two-letter tag a language is stored under.
    pub fn to_tag(&self) -> (r: String)
        ensures
            r@ == spec_lang_tag(*self),
    {
        match self {
            Language::English => String::from_str("en"),
            Language::Farsi => String::from_str("fa"),
            Language::Chinese => String::from_str("cn"),
            Language::Arabic => String::from_str("ar"),
        }
    }
}

impl Default for Language {
    /// English is the fallback language throughout.
    fn default() -> (r: Language)
        ensures
            r == Language::English,
    {
        Language::English
    }
}

/// A fixed table of names as a growable vector of strings.
pub fn str_to_vec(arr: &[&str]) -> (r: Vec<String>)
    ensures
        r@.len() == arr@.len(),
        forall|i: int| 0 <= i < r@.len() ==> r@[i]@ == arr@[i]@,
{
    let n = arr.len();
    let mut out: Vec<String> = Vec::new();
    let mut i: usize = 0;
    while i < n
        invariant
            0 <= i <= n,
            n == arr@.len(),
            out@.len() == i,
            forall|j: int| 0 <= j < i ==> out@[j]@ == arr@[j]@,
        decreases n - i,
    {
        out.push(String::from_str(arr[i]));
        i += 1;
    }
    out
}

} // verus!
