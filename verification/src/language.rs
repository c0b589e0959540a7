//! The two display languages and every text the widgets and the settings
//! surface show in them.

use vstd::prelude::*;
use crate::text::{decimal_digits, decimal_text, two_digits};

verus! {

/// A display language.
#[derive(Clone, Copy, Debug, PartialEq, Eq, Structural)]
pub enum Language {
    En,
    De,
}

impl Default for Language {
    fn default() -> (r: Self)
        ensures
            r == Language::En,
    {
        Language::En
    }
}

impl Language {
    /// The upper-case code shown on the language switch.
    pub open spec fn code(self) -> Seq<char> {
        match self {
            Language::En => "EN"@,
            Language::De => "DE"@,
        }
    }

    /// The other language.
    pub open spec fn other(self) -> Language {
        match self {
            Language::En => Language::De,
            Language::De => Language::En,
        }
    }

    /// The upper-case code of the language.
    pub fn as_str(&self) -> (r: &'static str)
        ensures
            r@ == self.code(),
    {
        match self {
            Language::En => "EN",
            Language::De => "DE",
        }
    }

    /// The language that the language switch moves to.
    pub fn next(&self) -> (r: Self)
        ensures
            r == self.other(),
    {
        match self {
            Language::En => Language::De,
            Language::De => Language::En,
        }
    }
}

/// Switching the language twice gives the language one started with, and one
/// switch always changes it.
pub proof fn lemma_next_is_an_involution(lang: Language)
    ensures
        lang.other().other() == lang,
        lang.other() != lang,
        lang.other().code() != lang.code(),
{
    reveal_strlit("EN");
    reveal_strlit("DE");
    assert("EN"@[0] != "DE"@[0]);
}

/// The fixed texts of the user interface.
#[derive(Clone, Copy, Debug, PartialEq, Eq, Structural)]
pub enum TextId {
    SettingsTitle,
    AddButton,
    DeleteButton,
    AutoStartup,
    UpdateInterval,
    ActiveCharts,
    Quit,
    SettingsMenu,
    ErrorPrefix,
    SymbolNotFound,
    FetchError,
    NoQuotesFound,
    WeekDataError,
    UpdateCheck,
    UpdateChecking,
    UpdateUpToDate,
    UpdateBtnNow,
    UpdateUpdating,
    UpdateRestart,
    UpdateError,
    UpdateAvailable,
    /// Holds the placeholder `{}` where the version number goes.
    UpdateBody,
}

/// The English wording of a text.
pub open spec fn english_text(id: TextId) -> Seq<char> {
    match id {
        TextId::SettingsTitle => "Settings"@,
        TextId::AddButton => "Add"@,
        TextId::DeleteButton => "Del"@,
        TextId::AutoStartup => "Auto Startup:"@,
        TextId::UpdateInterval => "Update Interval (min):"@,
        TextId::ActiveCharts => "Active Charts:"@,
        TextId::Quit => "Quit"@,
        TextId::SettingsMenu => "Settings"@,
        TextId::ErrorPrefix => "Error:"@,
        TextId::SymbolNotFound => "Symbol not found"@,
        TextId::FetchError => "Fetch error:"@,
        TextId::NoQuotesFound => "No quotes found"@,
        TextId::WeekDataError => "No quotes found for 1W"@,
        TextId::UpdateCheck => "Check for Updates"@,
        TextId::UpdateChecking => "Checking..."@,
        TextId::UpdateUpToDate => "Up to date"@,
        TextId::UpdateBtnNow => "Update Now"@,
        TextId::UpdateUpdating => "Updating..."@,
        TextId::UpdateRestart => "Restart"@,
        TextId::UpdateError => "Error!"@,
        TextId::UpdateAvailable => "Update Available"@,
        TextId::UpdateBody => "Version {} is available.\nClick to open settings."@,
    }
}

/// The German wording of a text.
pub open spec fn german_text(id: TextId) -> Seq<char> {
    match id {
        TextId::SettingsTitle => "Einstellungen"@,
        TextId::AddButton => "Hinzu"@,
        TextId::DeleteButton => "Lösch"@,
        TextId::AutoStartup => "Autostart:"@,
        TextId::UpdateInterval => "Aktualisierung (Min):"@,
        TextId::ActiveCharts => "Aktive Charts:"@,
        TextId::Quit => "Beenden"@,
        TextId::SettingsMenu => "Einstellungen"@,
        TextId::ErrorPrefix => "Fehler:"@,
        TextId::SymbolNotFound => "Symbol nicht gefunden"@,
        TextId::FetchError => "Abruf-Fehler:"@,
        TextId::NoQuotesFound => "Keine Kurse gefunden"@,
        TextId::WeekDataError => "Keine Kurse für 1W gefunden"@,
        TextId::UpdateCheck => "Updates suchen"@,
        TextId::UpdateChecking => "Suche..."@,
        TextId::UpdateUpToDate => "Aktuell"@,
        TextId::UpdateBtnNow => "Jetzt Aktualisieren"@,
        TextId::UpdateUpdating => "Aktualisiere..."@,
        TextId::UpdateRestart => "Neustarten"@,
        TextId::UpdateError => "Fehler!"@,
        TextId::UpdateAvailable => "Update verfügbar"@,
        TextId::UpdateBody =>
            "Version {} ist verfügbar.\nKlicken Sie hier, um die Einstellungen zu öffnen."@,
    }
}

/// The wording of a text in a language.
pub open spec fn text_of(lang: Language, id: TextId) -> Seq<char> {
    match lang {
        Language::En => english_text(id),
        Language::De => german_text(id),
    }
}

/// The wording of a fixed text in a language.
pub fn get_text(lang: Language, id: TextId) -> (r: &'static str)
    ensures
        r@ == text_of(lang, id),
{
    match lang {
        Language::En => match id {
            TextId::SettingsTitle => "Settings",
            TextId::AddButton => "Add",
            TextId::DeleteButton => "Del",
            TextId::AutoStartup => "Auto Startup:",
            TextId::UpdateInterval => "Update Interval (min):",
            TextId::ActiveCharts => "Active Charts:",
            TextId::Quit => "Quit",
            TextId::SettingsMenu => "Settings",
            TextId::ErrorPrefix => "Error:",
            TextId::SymbolNotFound => "Symbol not found",
            TextId::FetchError => "Fetch error:",
            TextId::NoQuotesFound => "No quotes found",
            TextId::WeekDataError => "No quotes found for 1W",
            TextId::UpdateCheck => "Check for Updates",
            TextId::UpdateChecking => "Checking...",
            TextId::UpdateUpToDate => "Up to date",
            TextId::UpdateBtnNow => "Update Now",
            TextId::UpdateUpdating => "Updating...",
            TextId::UpdateRestart => "Restart",
            TextId::UpdateError => "Error!",
            TextId::UpdateAvailable => "Update Available",
            TextId::UpdateBody => "Version {} is available.\nClick to open settings.",
        },
        Language::De => match id {
            TextId::SettingsTitle => "Einstellungen",
            TextId::AddButton => "Hinzu",
            TextId::DeleteButton => "Lösch",
            TextId::AutoStartup => "Autostart:",
            TextId::UpdateInterval => "Aktualisierung (Min):",
            TextId::ActiveCharts => "Aktive Charts:",
            TextId::Quit => "Beenden",
            TextId::SettingsMenu => "Einstellungen",
            TextId::ErrorPrefix => "Fehler:",
            TextId::SymbolNotFound => "Symbol nicht gefunden",
            TextId::FetchError => "Abruf-Fehler:",
            TextId::NoQuotesFound => "Keine Kurse gefunden",
            TextId::WeekDataError => "Keine Kurse für 1W gefunden",
            TextId::UpdateCheck => "Updates suchen",
            TextId::UpdateChecking => "Suche...",
            TextId::UpdateUpToDate => "Aktuell",
            TextId::UpdateBtnNow => "Jetzt Aktualisieren",
            TextId::UpdateUpdating => "Aktualisiere...",
            TextId::UpdateRestart => "Neustarten",
            TextId::UpdateError => "Fehler!",
            TextId::UpdateAvailable => "Update verfügbar",
            TextId::UpdateBody =>
                "Version {} ist verfügbar.\nKlicken Sie hier, um die Einstellungen zu öffnen.",
        },
    }
}

/// The short name of a month, counted from 1; empty for any other number.
pub open spec fn month_name_of(lang: Language, month: u32) -> Seq<char> {
    match lang {
        Language::En => match month {
            1 => "Jan"@,
            2 => "Feb"@,
            3 => "Mar"@,
            4 => "Apr"@,
            5 => "May"@,
            6 => "Jun"@,
            7 => "Jul"@,
            8 => "Aug"@,
            9 => "Sep"@,
            10 => "Oct"@,
            11 => "Nov"@,
            12 => "Dec"@,
            _ => ""@,
        },
        Language::De => match month {
            1 => "Jan"@,
            2 => "Feb"@,
            3 => "Mär"@,
            4 => "Apr"@,
            5 => "Mai"@,
            6 => "Jun"@,
            7 => "Jul"@,
            8 => "Aug"@,
            9 => "Sep"@,
            10 => "Okt"@,
            11 => "Nov"@,
            12 => "Dez"@,
            _ => ""@,
        },
    }
}

/// The short name of a month, counted from 1; empty for any other number.
pub fn get_month_name(lang: Language, month: u32) -> (r: &'static str)
    ensures
        r@ == month_name_of(lang, month),
{
    match lang {
        Language::En => match month {
            1 => "Jan",
            2 => "Feb",
            3 => "Mar",
            4 => "Apr",
            5 => "May",
            6 => "Jun",
            7 => "Jul",
            8 => "Aug",
            9 => "Sep",
            10 => "Oct",
            11 => "Nov",
            12 => "Dec",
            _ => "",
        },
        Language::De => match month {
            1 => "Jan",
            2 => "Feb",
            3 => "Mär",
            4 => "Apr",
            5 => "Mai",
            6 => "Jun",
            7 => "Jul",
            8 => "Aug",
            9 => "Sep",
            10 => "Okt",
            11 => "Nov",
            12 => "Dez",
            _ => "",
        },
    }
}

/// A day of the week.
#[derive(Clone, Copy, Debug, PartialEq, Eq, Structural)]
pub enum Weekday {
    Mon,
    Tue,
    Wed,
    Thu,
    Fri,
    Sat,
    Sun,
}

/// The short name of a day of the week.
pub open spec fn day_name_of(lang: Language, weekday: Weekday) -> Seq<char> {
    match lang {
        Language::En => match weekday {
            Weekday::Mon => "Mon"@,
            Weekday::Tue => "Tue"@,
            Weekday::Wed => "Wed"@,
            Weekday::Thu => "Thu"@,
            Weekday::Fri => "Fri"@,
            Weekday::Sat => "Sat"@,
            Weekday::Sun => "Sun"@,
        },
        Language::De => match weekday {
            Weekday::Mon => "Mo"@,
            Weekday::Tue => "Di"@,
            Weekday::Wed => "Mi"@,
            Weekday::Thu => "Do"@,
            Weekday::Fri => "Fr"@,
            Weekday::Sat => "Sa"@,
            Weekday::Sun => "So"@,
        },
    }
}

/// The short name of a day of the week.
pub fn get_day_name(lang: Language, weekday: Weekday) -> (r: &'static str)
    ensures
        r@ == day_name_of(lang, weekday),
{
    match lang {
        Language::En => match weekday {
            Weekday::Mon => "Mon",
            Weekday::Tue => "Tue",
            Weekday::Wed => "Wed",
            Weekday::Thu => "Thu",
            Weekday::Fri => "Fri",
            Weekday::Sat => "Sat",
            Weekday::Sun => "Sun",
        },
        Language::De => match weekday {
            Weekday::Mon => "Mo",
            Weekday::Tue => "Di",
            Weekday::Wed => "Mi",
            Weekday::Thu => "Do",
            Weekday::Fri => "Fr",
            Weekday::Sat => "Sa",
            Weekday::Sun => "So",
        },
    }
}

/// The calendar fields of a moment in local time that the labels are built
/// from.
#[derive(Clone, Copy, Debug, PartialEq, Eq, Structural)]
pub struct LocalMoment {
    pub weekday: Weekday,
    pub month: u32,
    pub day: u32,
    pub hour: u32,
    pub minute: u32,
}

impl LocalMoment {
    /// The fields name a day of a month and a minute of a day.
    pub open spec fn wf(self) -> bool {
        &&& 1 <= self.month <= 12
        &&& 1 <= self.day <= 31
        &&& self.hour < 24
        &&& self.minute < 60
    }

    /// Checks the fields and builds the moment; `None` when one of them is out
    /// of range.
    pub fn new(weekday: Weekday, month: u32, day: u32, hour: u32, minute: u32) -> (r: Option<Self>)
        ensures
            r == if 1 <= month <= 12 && 1 <= day <= 31 && hour < 24 && minute < 60 {
                Some(LocalMoment { weekday, month, day, hour, minute })
            } else {
                None
            },
    {
        if 1 <= month && month <= 12 && 1 <= day && day <= 31 && hour < 24 && minute < 60 {
            Some(LocalMoment { weekday, month, day, hour, minute })
        } else {
            None
        }
    }
}

/// The time of day as `HH:MM`.
pub open spec fn clock_of(hour: u32, minute: u32) -> Seq<char> {
    two_digits(hour as int) + seq![':'] + two_digits(minute as int)
}

/// Calls `chrono::NaiveTime::from_hms_opt` and formats the time with
/// `NaiveTime::format` and the pattern `%H:%M`: hour and minute, each padded
/// with zeros to two digits, with a colon between them.
#[verifier::external_body]
fn clock_text(hour: u32, minute: u32) -> (s: String)
    requires
        hour < 24,
        minute < 60,
    ensures
        s@ == clock_of(hour, minute),
{
    chrono::NaiveTime::from_hms_opt(hour, minute, 0).unwrap_or_default().format("%H:%M").to_string()
}

/// The time of day of a moment, as `HH:MM`.
pub fn format_time(date: LocalMoment) -> (r: String)
    requires
        date.wf(),
    ensures
        r@ == clock_of(date.hour, date.minute),
{
    clock_text(date.hour, date.minute)
}

/// The day of the week and the time of day of a moment.
pub fn format_weekday_time(lang: Language, date: LocalMoment) -> (r: String)
    requires
        date.wf(),
    ensures
        r@ == day_name_of(lang, date.weekday) + " "@ + clock_of(date.hour, date.minute),
{
    let day_name = get_day_name(lang, date.weekday);
    let clock = clock_text(date.hour, date.minute);
    String::from_str(day_name).concat(" ").concat(clock.as_str())
}

/// Month and day in the order the language writes them.
pub open spec fn month_day_of(lang: Language, month: u32, day: u32) -> Seq<char> {
    match lang {
        Language::En => month_name_of(lang, month) + " "@ + decimal_digits(day as nat),
        Language::De => decimal_digits(day as nat) + ". "@ + month_name_of(lang, month),
    }
}

/// Month and day of a moment, in the order the language writes them.
pub fn format_month_day(lang: Language, date: LocalMoment) -> (r: String)
    requires
        date.wf(),
    ensures
        r@ == month_day_of(lang, date.month, date.day),
{
    let month_name = get_month_name(lang, date.month);
    let day = decimal_text(date.day);
    match lang {
        Language::En => String::from_str(month_name).concat(" ").concat(day.as_str()),
        Language::De => day.concat(". ").concat(month_name),
    }
}

/// Why a fetch gave no series.
#[derive(Debug)]
pub enum AppError {
    /// The provider or the network failed; the text is the provider's own.
    FetchError(String),
    /// The provider answered with no points.
    NoQuotesFound,
    /// None of the daily requests of the one-week series gave a point.
    WeekDataError,
}

/// What the user is told about a failed fetch.
pub open spec fn error_text_of(lang: Language, error: AppError) -> Seq<char> {
    match lang {
        Language::En => match error {
            AppError::FetchError(_) => "Failed to fetch data from Yahoo Finance"@,
            AppError::NoQuotesFound => "No quotes found"@,
            AppError::WeekDataError => "No quotes found for 1W"@,
        },
        Language::De => match error {
            AppError::FetchError(_) => "Fehler beim Abrufen der Daten von Yahoo Finance"@,
            AppError::NoQuotesFound => "Keine Kurse gefunden"@,
            AppError::WeekDataError => "Keine Kurse für 1W gefunden"@,
        },
    }
}

/// What the user is told about a failed fetch.
pub fn get_error_text(lang: Language, error: &AppError) -> (r: String)
    ensures
        r@ == error_text_of(lang, *error),
{
    match lang {
        Language::En => match error {
            AppError::FetchError(_) => String::from_str("Failed to fetch data from Yahoo Finance"),
            AppError::NoQuotesFound => String::from_str("No quotes found"),
            AppError::WeekDataError => String::from_str("No quotes found for 1W"),
        },
        Language::De => match error {
            AppError::FetchError(_) => String::from_str(
                "Fehler beim Abrufen der Daten von Yahoo Finance",
            ),
            AppError::NoQuotesFound => String::from_str("Keine Kurse gefunden"),
            AppError::WeekDataError => String::from_str("Keine Kurse für 1W gefunden"),
        },
    }
}

} // verus!
