//! The display locales the tool offers. The locale only influences label
//! rendering, never segmentation.

use vstd::prelude::*;

verus! {

#[derive(PartialEq, Eq, Structural, Clone, Copy)]
pub enum Locale {
    En,
    ZhCn,
    ZhHk,
}

impl Locale {
    /// The locale identifier handed to the localization layer.
    pub fn to_locale(&self) -> (r: &'static str)
        ensures
            *self == Locale::En ==> r@ == "en"@,
            *self == Locale::ZhCn ==> r@ == "zh-CN"@,
            *self == Locale::ZhHk ==> r@ == "zh-HK"@,
    {
        match self {
            Locale::En => "en",
            Locale::ZhCn => "zh-CN",
            Locale::ZhHk => "zh-HK",
        }
    }

    /// The locale's name in its own language.
    pub fn to_name(&self) -> (r: &'static str)
        ensures
            *self == Locale::En ==> r@ == "English"@,
            *self == Locale::ZhCn ==> r@ == "\u{4e2d}\u{6587}\u{ff08}\u{7b80}\u{4f53}\u{ff09}"@,
            *self == Locale::ZhHk ==> r@ == "\u{4e2d}\u{6587}\u{ff08}\u{7e41}\u{9ad4}\u{ff09}"@,
    {
        match self {
            Locale::En => "English",
            Locale::ZhCn => "\u{4e2d}\u{6587}\u{ff08}\u{7b80}\u{4f53}\u{ff09}",
            Locale::ZhHk => "\u{4e2d}\u{6587}\u{ff08}\u{7e41}\u{9ad4}\u{ff09}",
        }
    }
}

impl Default for Locale {
    fn default() -> (r: Self)
        ensures
            r == Locale::En,
    {
        Locale::En
    }
}

} // verus!
