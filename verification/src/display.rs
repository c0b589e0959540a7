//! Small decisions of the presentation that are made on plain values: the
//! sign of a currency, the number of axis labels, the packing of pixels and
//! the wording of the update notice.

use vstd::prelude::*;
use crate::language::{
    clock_of, day_name_of, format_month_day, format_time, format_weekday_time, get_text,
    month_day_of, text_of, Language, LocalMoment, TextId,
};
use crate::timeframe::Timeframe;
use crate::text::str_eq;

verus! {

/// The sign that stands for a currency in the headline of a chart; for a
/// currency without a sign of its own, its code.
pub open spec fn currency_sign_of(code: Seq<char>) -> Seq<char> {
    if code == "USD"@ {
        "$"@
    } else if code == "EUR"@ {
        "€"@
    } else if code == "GBP"@ {
        "£"@
    } else if code == "JPY"@ {
        "¥"@
    } else {
        code
    }
}

/// The sign that the headline of a chart shows for a currency.
pub fn currency_symbol<'a>(code: &'a str) -> (r: &'a str)
    ensures
        r@ == currency_sign_of(code@),
{
    if str_eq(code, "USD") {
        "$"
    } else if str_eq(code, "EUR") {
        "€"
    } else if str_eq(code, "GBP") {
        "£"
    } else if str_eq(code, "JPY") {
        "¥"
    } else {
        code
    }
}

/// The number of labels on an axis of `extent` pixels with one label every
/// `spacing` pixels, and two at the least.
pub open spec fn label_count_of(extent: u32, spacing: u32) -> int {
    if extent / spacing >= 2 {
        (extent / spacing) as int
    } else {
        2
    }
}

/// Pixels between two labels of the time axis.
pub const X_LABEL_SPACING: u32 = 120;

/// Pixels between two labels of the price axis.
pub const Y_LABEL_SPACING: u32 = 60;

/// The numbers of labels on the time axis and on the price axis of a chart
/// of the given size in pixels.
pub fn label_counts(width: u32, height: u32) -> (r: (usize, usize))
    ensures
        r.0 == label_count_of(width, X_LABEL_SPACING),
        r.1 == label_count_of(height, Y_LABEL_SPACING),
{
    let x: u32 = width / X_LABEL_SPACING;
    let y: u32 = height / Y_LABEL_SPACING;
    (if x >= 2 { x as usize } else { 2 }, if y >= 2 { y as usize } else { 2 })
}

/// A pixel of the window's buffer: red, green and blue in the three low
/// bytes.
pub open spec fn packed(r: u8, g: u8, b: u8) -> u32 {
    (r * 65_536 + g * 256 + b) as u32
}

/// Packs the three colours of a pixel into one word of the window's buffer.
pub fn pack_rgb(r: u8, g: u8, b: u8) -> (p: u32)
    ensures
        p == packed(r, g, b),
{
    let p: u32 = ((r as u32) << 16) | ((g as u32) << 8) | (b as u32);
    assert(((r as u32) << 16) | ((g as u32) << 8) | (b as u32) == (r as u32) * 65_536 + (g as u32)
        * 256 + (b as u32)) by (bit_vector);
    p
}

/// The pixel that place `i` of the buffer holds after the drawing `rgb` was
/// copied over `before`: the drawn pixel where the drawing reaches and,
/// with `keep_background`, is not black; the pixel of before everywhere
/// else.
pub open spec fn copied_pixel(before: Seq<u32>, rgb: Seq<u8>, keep_background: bool, i: int) -> u32 {
    if 3 * i + 2 < rgb.len() && !(keep_background && rgb[3 * i] == 0 && rgb[3 * i + 1] == 0
        && rgb[3 * i + 2] == 0) {
        packed(rgb[3 * i], rgb[3 * i + 1], rgb[3 * i + 2])
    } else {
        before[i]
    }
}

/// Copies a drawing of three bytes per pixel into the buffer of a window.
/// With `keep_background`, black pixels of the drawing leave the buffer as
/// it is.
pub fn copy_pixels(buffer: &mut Vec<u32>, rgb: &Vec<u8>, keep_background: bool)
    ensures
        final(buffer)@.len() == old(buffer)@.len(),
        forall|i: int|
            0 <= i < old(buffer)@.len() ==> final(buffer)@[i] == copied_pixel(
                old(buffer)@,
                rgb@,
                keep_background,
                i,
            ),
{
    let n: usize = buffer.len();
    let mut i: usize = 0;
    while i < n && rgb.len() >= 3 && i <= (rgb.len() - 3) / 3
        invariant
            i <= n,
            buffer@.len() == n,
            n == old(buffer)@.len(),
            forall|k: int|
                0 <= k < i ==> buffer@[k] == copied_pixel(old(buffer)@, rgb@, keep_background, k),
            forall|k: int| i <= k < n ==> buffer@[k] == old(buffer)@[k],
        decreases n - i,
    {
        let r: u8 = rgb[3 * i];
        let g: u8 = rgb[3 * i + 1];
        let b: u8 = rgb[3 * i + 2];
        if !(keep_background && r == 0 && g == 0 && b == 0) {
            buffer.set(i, pack_rgb(r, g, b));
        }
        i += 1;
    }
}

/// The label of a moment on the time axis of a chart: the time of day on a
/// chart of one day, the day of the week and the time on a chart of one
/// week, and month and day on every longer chart.
pub open spec fn axis_label_of(lang: Language, timeframe: Timeframe, moment: LocalMoment) -> Seq<
    char,
> {
    match timeframe {
        Timeframe::OneDay => clock_of(moment.hour, moment.minute),
        Timeframe::OneWeek => day_name_of(lang, moment.weekday) + " "@ + clock_of(
            moment.hour,
            moment.minute,
        ),
        _ => month_day_of(lang, moment.month, moment.day),
    }
}

/// Writes the label of a moment on the time axis of a chart.
pub fn axis_label(lang: Language, timeframe: Timeframe, moment: LocalMoment) -> (r: String)
    requires
        moment.wf(),
    ensures
        r@ == axis_label_of(lang, timeframe, moment),
{
    match timeframe {
        Timeframe::OneDay => format_time(moment),
        Timeframe::OneWeek => format_weekday_time(lang, moment),
        _ => format_month_day(lang, moment),
    }
}

/// What comes before the version in the body of the update notice.
pub open spec fn notice_prefix(lang: Language) -> Seq<char> {
    match lang {
        Language::En => "Version "@,
        Language::De => "Version "@,
    }
}

/// What comes after the version in the body of the update notice.
pub open spec fn notice_suffix(lang: Language) -> Seq<char> {
    match lang {
        Language::En => " is available.\nClick to open settings."@,
        Language::De => " ist verfügbar.\nKlicken Sie hier, um die Einstellungen zu öffnen."@,
    }
}

/// The title of the notice that tells the user of an update.
pub fn update_notice_title(lang: Language) -> (r: &'static str)
    ensures
        r@ == text_of(lang, TextId::UpdateAvailable),
{
    get_text(lang, TextId::UpdateAvailable)
}

/// The body of the notice that tells the user of an update: the text of
/// `TextId::UpdateBody` with the version in the place of its placeholder.
pub fn update_notice_body(lang: Language, version: &str) -> (r: String)
    ensures
        r@ == notice_prefix(lang) + version@ + notice_suffix(lang),
{
    match lang {
        Language::En => String::from_str("Version ").concat(version).concat(
            " is available.\nClick to open settings.",
        ),
        Language::De => String::from_str("Version ").concat(version).concat(
            " ist verfügbar.\nKlicken Sie hier, um die Einstellungen zu öffnen.",
        ),
    }
}

/// The body of the update notice is its stored text with the placeholder
/// `{}` replaced by the version: prefix, placeholder and suffix together are
/// that text.
pub proof fn lemma_notice_parts_make_the_text(lang: Language)
    ensures
        notice_prefix(lang) + "{}"@ + notice_suffix(lang) == text_of(lang, TextId::UpdateBody),
{
    reveal_strlit("Version ");
    reveal_strlit("{}");
    match lang {
        Language::En => {
            reveal_strlit(" is available.\nClick to open settings.");
            reveal_strlit("Version {} is available.\nClick to open settings.");
            assert(notice_prefix(lang) + "{}"@ + notice_suffix(lang) =~= text_of(
                lang,
                TextId::UpdateBody,
            ));
        },
        Language::De => {
            reveal_strlit(" ist verfügbar.\nKlicken Sie hier, um die Einstellungen zu öffnen.");
            reveal_strlit(
                "Version {} ist verfügbar.\nKlicken Sie hier, um die Einstellungen zu öffnen.",
            );
            assert(notice_prefix(lang) + "{}"@ + notice_suffix(lang) =~= text_of(
                lang,
                TextId::UpdateBody,
            ));
        },
    }
}

} // verus!
