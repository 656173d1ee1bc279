//! The translation command's language table: recognising a two-letter (or
//! three-letter) language code, case-insensitively for ASCII letters.  The
//! one alias is the old code for Hebrew, which the translation provider
//! still expects.

use vstd::prelude::*;

use crate::text::{ascii_lower, str_eq_lowered};

verus! {

/// The provider's code for a language name, after ASCII lower-casing, or
/// nothing for an unknown name.
pub open spec fn language_code(arg: Seq<char>) -> Option<Seq<char>> {
    let l = ascii_lower(arg);
    if l == "af"@ {
        Some("af"@)
    } else if l == "sq"@ {
        Some("sq"@)
    } else if l == "am"@ {
        Some("am"@)
    } else if l == "ar"@ {
        Some("ar"@)
    } else if l == "hy"@ {
        Some("hy"@)
    } else if l == "az"@ {
        Some("az"@)
    } else if l == "eu"@ {
        Some("eu"@)
    } else if l == "be"@ {
        Some("be"@)
    } else if l == "bn"@ {
        Some("bn"@)
    } else if l == "bs"@ {
        Some("bs"@)
    } else if l == "bg"@ {
        Some("bg"@)
    } else if l == "ca"@ {
        Some("ca"@)
    } else if l == "ceb"@ {
        Some("ceb"@)
    } else if l == "zh"@ {
        Some("zh"@)
    } else if l == "co"@ {
        Some("co"@)
    } else if l == "hr"@ {
        Some("hr"@)
    } else if l == "cs"@ {
        Some("cs"@)
    } else if l == "da"@ {
        Some("da"@)
    } else if l == "nl"@ {
        Some("nl"@)
    } else if l == "en"@ {
        Some("en"@)
    } else if l == "eo"@ {
        Some("eo"@)
    } else if l == "et"@ {
        Some("et"@)
    } else if l == "fi"@ {
        Some("fi"@)
    } else if l == "fr"@ {
        Some("fr"@)
    } else if l == "fy"@ {
        Some("fy"@)
    } else if l == "gl"@ {
        Some("gl"@)
    } else if l == "ka"@ {
        Some("ka"@)
    } else if l == "de"@ {
        Some("de"@)
    } else if l == "el"@ {
        Some("el"@)
    } else if l == "gu"@ {
        Some("gu"@)
    } else if l == "ht"@ {
        Some("ht"@)
    } else if l == "ha"@ {
        Some("ha"@)
    } else if l == "haw"@ {
        Some("haw"@)
    } else if l == "he"@ || l == "iw"@ {
        Some("iw"@)
    } else if l == "hi"@ {
        Some("hi"@)
    } else if l == "hmn"@ {
        Some("hmn"@)
    } else if l == "hu"@ {
        Some("hu"@)
    } else if l == "is"@ {
        Some("is"@)
    } else if l == "ig"@ {
        Some("ig"@)
    } else if l == "id"@ {
        Some("id"@)
    } else if l == "ga"@ {
        Some("ga"@)
    } else if l == "it"@ {
        Some("it"@)
    } else if l == "ja"@ {
        Some("ja"@)
    } else if l == "jv"@ {
        Some("jv"@)
    } else if l == "kn"@ {
        Some("kn"@)
    } else if l == "kk"@ {
        Some("kk"@)
    } else if l == "km"@ {
        Some("km"@)
    } else if l == "rw"@ {
        Some("rw"@)
    } else if l == "ko"@ {
        Some("ko"@)
    } else if l == "ku"@ {
        Some("ku"@)
    } else if l == "ky"@ {
        Some("ky"@)
    } else if l == "lo"@ {
        Some("lo"@)
    } else if l == "la"@ {
        Some("la"@)
    } else if l == "lv"@ {
        Some("lv"@)
    } else if l == "lt"@ {
        Some("lt"@)
    } else if l == "lb"@ {
        Some("lb"@)
    } else if l == "mk"@ {
        Some("mk"@)
    } else if l == "mg"@ {
        Some("mg"@)
    } else if l == "ms"@ {
        Some("ms"@)
    } else if l == "ml"@ {
        Some("ml"@)
    } else if l == "mt"@ {
        Some("mt"@)
    } else if l == "mi"@ {
        Some("mi"@)
    } else if l == "mr"@ {
        Some("mr"@)
    } else if l == "mn"@ {
        Some("mn"@)
    } else if l == "my"@ {
        Some("my"@)
    } else if l == "ne"@ {
        Some("ne"@)
    } else if l == "no"@ {
        Some("no"@)
    } else if l == "ny"@ {
        Some("ny"@)
    } else if l == "or"@ {
        Some("or"@)
    } else if l == "ps"@ {
        Some("ps"@)
    } else if l == "fa"@ {
        Some("fa"@)
    } else if l == "pl"@ {
        Some("pl"@)
    } else if l == "pt"@ {
        Some("pt"@)
    } else if l == "pa"@ {
        Some("pa"@)
    } else if l == "ro"@ {
        Some("ro"@)
    } else if l == "ru"@ {
        Some("ru"@)
    } else if l == "sm"@ {
        Some("sm"@)
    } else if l == "gd"@ {
        Some("gd"@)
    } else if l == "sr"@ {
        Some("sr"@)
    } else if l == "st"@ {
        Some("st"@)
    } else if l == "sn"@ {
        Some("sn"@)
    } else if l == "sd"@ {
        Some("sd"@)
    } else if l == "si"@ {
        Some("si"@)
    } else if l == "sk"@ {
        Some("sk"@)
    } else if l == "sl"@ {
        Some("sl"@)
    } else if l == "so"@ {
        Some("so"@)
    } else if l == "es"@ {
        Some("es"@)
    } else if l == "su"@ {
        Some("su"@)
    } else if l == "sw"@ {
        Some("sw"@)
    } else if l == "sv"@ {
        Some("sv"@)
    } else if l == "tl"@ {
        Some("tl"@)
    } else if l == "tg"@ {
        Some("tg"@)
    } else if l == "ta"@ {
        Some("ta"@)
    } else if l == "tt"@ {
        Some("tt"@)
    } else if l == "te"@ {
        Some("te"@)
    } else if l == "th"@ {
        Some("th"@)
    } else if l == "tr"@ {
        Some("tr"@)
    } else if l == "tk"@ {
        Some("tk"@)
    } else if l == "uk"@ {
        Some("uk"@)
    } else if l == "ur"@ {
        Some("ur"@)
    } else if l == "ug"@ {
        Some("ug"@)
    } else if l == "uz"@ {
        Some("uz"@)
    } else if l == "vi"@ {
        Some("vi"@)
    } else if l == "cy"@ {
        Some("cy"@)
    } else if l == "xh"@ {
        Some("xh"@)
    } else if l == "yi"@ {
        Some("yi"@)
    } else if l == "yo"@ {
        Some("yo"@)
    } else if l == "zu"@ {
        Some("zu"@)
    } else {
        None
    }
}

/// Recognises a language code, case-insensitively for ASCII letters.
#[verifier::rlimit(30)]
pub fn validate_unit(unit_arg: &String) -> (r: Option<&'static str>)
    ensures
        ({
            let code = language_code(unit_arg@);
            match r {
                Some(found) => code == Some(found@),
                None => code is None,
            }
        }),
{
    let a = unit_arg.as_str();
    if str_eq_lowered(a, "af") {
        Some("af")
    } else if str_eq_lowered(a, "sq") {
        Some("sq")
    } else if str_eq_lowered(a, "am") {
        Some("am")
    } else if str_eq_lowered(a, "ar") {
        Some("ar")
    } else if str_eq_lowered(a, "hy") {
        Some("hy")
    } else if str_eq_lowered(a, "az") {
        Some("az")
    } else if str_eq_lowered(a, "eu") {
        Some("eu")
    } else if str_eq_lowered(a, "be") {
        Some("be")
    } else if str_eq_lowered(a, "bn") {
        Some("bn")
    } else if str_eq_lowered(a, "bs") {
        Some("bs")
    } else if str_eq_lowered(a, "bg") {
        Some("bg")
    } else if str_eq_lowered(a, "ca") {
        Some("ca")
    } else if str_eq_lowered(a, "ceb") {
        Some("ceb")
    } else if str_eq_lowered(a, "zh") {
        Some("zh")
    } else if str_eq_lowered(a, "co") {
        Some("co")
    } else if str_eq_lowered(a, "hr") {
        Some("hr")
    } else if str_eq_lowered(a, "cs") {
        Some("cs")
    } else if str_eq_lowered(a, "da") {
        Some("da")
    } else if str_eq_lowered(a, "nl") {
        Some("nl")
    } else if str_eq_lowered(a, "en") {
        Some("en")
    } else if str_eq_lowered(a, "eo") {
        Some("eo")
    } else if str_eq_lowered(a, "et") {
        Some("et")
    } else if str_eq_lowered(a, "fi") {
        Some("fi")
    } else if str_eq_lowered(a, "fr") {
        Some("fr")
    } else if str_eq_lowered(a, "fy") {
        Some("fy")
    } else if str_eq_lowered(a, "gl") {
        Some("gl")
    } else if str_eq_lowered(a, "ka") {
        Some("ka")
    } else if str_eq_lowered(a, "de") {
        Some("de")
    } else if str_eq_lowered(a, "el") {
        Some("el")
    } else if str_eq_lowered(a, "gu") {
        Some("gu")
    } else if str_eq_lowered(a, "ht") {
        Some("ht")
    } else if str_eq_lowered(a, "ha") {
        Some("ha")
    } else if str_eq_lowered(a, "haw") {
        Some("haw")
    } else if str_eq_lowered(a, "he") || str_eq_lowered(a, "iw") {
        Some("iw")
    } else if str_eq_lowered(a, "hi") {
        Some("hi")
    } else if str_eq_lowered(a, "hmn") {
        Some("hmn")
    } else if str_eq_lowered(a, "hu") {
        Some("hu")
    } else if str_eq_lowered(a, "is") {
        Some("is")
    } else if str_eq_lowered(a, "ig") {
        Some("ig")
    } else if str_eq_lowered(a, "id") {
        Some("id")
    } else if str_eq_lowered(a, "ga") {
        Some("ga")
    } else if str_eq_lowered(a, "it") {
        Some("it")
    } else if str_eq_lowered(a, "ja") {
        Some("ja")
    } else if str_eq_lowered(a, "jv") {
        Some("jv")
    } else if str_eq_lowered(a, "kn") {
        Some("kn")
    } else if str_eq_lowered(a, "kk") {
        Some("kk")
    } else if str_eq_lowered(a, "km") {
        Some("km")
    } else if str_eq_lowered(a, "rw") {
        Some("rw")
    } else if str_eq_lowered(a, "ko") {
        Some("ko")
    } else if str_eq_lowered(a, "ku") {
        Some("ku")
    } else if str_eq_lowered(a, "ky") {
        Some("ky")
    } else if str_eq_lowered(a, "lo") {
        Some("lo")
    } else if str_eq_lowered(a, "la") {
        Some("la")
    } else if str_eq_lowered(a, "lv") {
        Some("lv")
    } else if str_eq_lowered(a, "lt") {
        Some("lt")
    } else if str_eq_lowered(a, "lb") {
        Some("lb")
    } else if str_eq_lowered(a, "mk") {
        Some("mk")
    } else if str_eq_lowered(a, "mg") {
        Some("mg")
    } else if str_eq_lowered(a, "ms") {
        Some("ms")
    } else if str_eq_lowered(a, "ml") {
        Some("ml")
    } else if str_eq_lowered(a, "mt") {
        Some("mt")
    } else if str_eq_lowered(a, "mi") {
        Some("mi")
    } else if str_eq_lowered(a, "mr") {
        Some("mr")
    } else if str_eq_lowered(a, "mn") {
        Some("mn")
    } else if str_eq_lowered(a, "my") {
        Some("my")
    } else if str_eq_lowered(a, "ne") {
        Some("ne")
    } else if str_eq_lowered(a, "no") {
        Some("no")
    } else if str_eq_lowered(a, "ny") {
        Some("ny")
    } else if str_eq_lowered(a, "or") {
        Some("or")
    } else if str_eq_lowered(a, "ps") {
        Some("ps")
    } else if str_eq_lowered(a, "fa") {
        Some("fa")
    } else if str_eq_lowered(a, "pl") {
        Some("pl")
    } else if str_eq_lowered(a, "pt") {
        Some("pt")
    } else if str_eq_lowered(a, "pa") {
        Some("pa")
    } else if str_eq_lowered(a, "ro") {
        Some("ro")
    } else if str_eq_lowered(a, "ru") {
        Some("ru")
    } else if str_eq_lowered(a, "sm") {
        Some("sm")
    } else if str_eq_lowered(a, "gd") {
        Some("gd")
    } else if str_eq_lowered(a, "sr") {
        Some("sr")
    } else if str_eq_lowered(a, "st") {
        Some("st")
    } else if str_eq_lowered(a, "sn") {
        Some("sn")
    } else if str_eq_lowered(a, "sd") {
        Some("sd")
    } else if str_eq_lowered(a, "si") {
        Some("si")
    } else if str_eq_lowered(a, "sk") {
        Some("sk")
    } else if str_eq_lowered(a, "sl") {
        Some("sl")
    } else if str_eq_lowered(a, "so") {
        Some("so")
    } else if str_eq_lowered(a, "es") {
        Some("es")
    } else if str_eq_lowered(a, "su") {
        Some("su")
    } else if str_eq_lowered(a, "sw") {
        Some("sw")
    } else if str_eq_lowered(a, "sv") {
        Some("sv")
    } else if str_eq_lowered(a, "tl") {
        Some("tl")
    } else if str_eq_lowered(a, "tg") {
        Some("tg")
    } else if str_eq_lowered(a, "ta") {
        Some("ta")
    } else if str_eq_lowered(a, "tt") {
        Some("tt")
    } else if str_eq_lowered(a, "te") {
        Some("te")
    } else if str_eq_lowered(a, "th") {
        Some("th")
    } else if str_eq_lowered(a, "tr") {
        Some("tr")
    } else if str_eq_lowered(a, "tk") {
        Some("tk")
    } else if str_eq_lowered(a, "uk") {
        Some("uk")
    } else if str_eq_lowered(a, "ur") {
        Some("ur")
    } else if str_eq_lowered(a, "ug") {
        Some("ug")
    } else if str_eq_lowered(a, "uz") {
        Some("uz")
    } else if str_eq_lowered(a, "vi") {
        Some("vi")
    } else if str_eq_lowered(a, "cy") {
        Some("cy")
    } else if str_eq_lowered(a, "xh") {
        Some("xh")
    } else if str_eq_lowered(a, "yi") {
        Some("yi")
    } else if str_eq_lowered(a, "yo") {
        Some("yo")
    } else if str_eq_lowered(a, "zu") {
        Some("zu")
    } else {
        None
    }
}

} // verus!
