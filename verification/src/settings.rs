use vstd::prelude::*;
use crate::error::AppError;
use crate::text::{blank, is_blank, same_text};

verus! {

/// One stored preference.
#[derive(Debug)]
pub struct Setting {
    pub key: String,
    pub value: String,
}

/// A stored preference as a pair of texts.
pub open spec fn setting_view(s: Setting) -> (Seq<char>, Seq<char>) {
    (s.key@, s.value@)
}

fn setting(key: &str, value: &str) -> (res: Setting)
    ensures
        res.key@ == key@,
        res.value@ == value@,
{
    Setting { key: key.to_owned(), value: value.to_owned() }
}

/// The preferences as the user chooses them.
#[derive(Debug)]
pub struct PreferenceInput {
    pub currency: String,
    pub date_format: String,
    pub appearance: String,
}

/// The preferences the application offers: Brazilian reais, day/month/year
/// dates, and a dark or system appearance.
pub open spec fn preferences_accepted(
    currency: Seq<char>,
    date_format: Seq<char>,
    appearance: Seq<char>,
) -> bool {
    &&& currency == "BRL"@
    &&& date_format == "DD/MM/AAAA"@
    &&& (appearance == "dark"@ || appearance == "system"@)
}

/// The three settings, in the order they are stored.
pub open spec fn settings_are(
    v: Seq<Setting>,
    currency: Seq<char>,
    date_format: Seq<char>,
    appearance: Seq<char>,
) -> bool {
    &&& v.len() == 3
    &&& setting_view(v[0]) == ("currency"@, currency)
    &&& setting_view(v[1]) == ("date_format"@, date_format)
    &&& setting_view(v[2]) == ("appearance"@, appearance)
}

/// Checks the preferences and lays them out as the settings to store.
pub fn validate_preferences(input: &PreferenceInput) -> (res: Result<Vec<Setting>, AppError>)
    ensures
        !preferences_accepted(input.currency@, input.date_format@, input.appearance@) ==> res
            == Err::<Vec<Setting>, AppError>(AppError::InvalidPreference),
        preferences_accepted(input.currency@, input.date_format@, input.appearance@) ==> (
        res matches Ok(v) && settings_are(
            v@,
            input.currency@,
            input.date_format@,
            input.appearance@,
        )),
{
    if !same_text(input.currency.as_str(), "BRL") || !same_text(
        input.date_format.as_str(),
        "DD/MM/AAAA",
    ) || (!same_text(input.appearance.as_str(), "dark") && !same_text(
        input.appearance.as_str(),
        "system",
    )) {
        return Err(AppError::InvalidPreference);
    }
    let mut v: Vec<Setting> = Vec::new();
    v.push(setting("currency", input.currency.as_str()));
    v.push(setting("date_format", input.date_format.as_str()));
    v.push(setting("appearance", input.appearance.as_str()));
    Ok(v)
}

/// The settings a new database starts with; they are preferences the
/// application accepts, so saving them back is never refused.
pub fn default_settings() -> (res: Vec<Setting>)
    ensures
        settings_are(res@, "BRL"@, "DD/MM/AAAA"@, "dark"@),
        preferences_accepted(res@[0].value@, res@[1].value@, res@[2].value@),
{
    let mut v: Vec<Setting> = Vec::new();
    v.push(setting("currency", "BRL"));
    v.push(setting("date_format", "DD/MM/AAAA"));
    v.push(setting("appearance", "dark"));
    v
}

/// A stored preference as read back: key and value, each present only when it is text.
#[derive(Debug)]
pub struct StoredSetting {
    pub key: Option<String>,
    pub value: Option<String>,
}

/// The preferences read back, in order, leaving out those whose key or value is not text.
pub open spec fn readable_settings(rows: Seq<StoredSetting>) -> Seq<(Seq<char>, Seq<char>)>
    decreases rows.len(),
{
    if rows.len() == 0 {
        Seq::empty()
    } else {
        let last = rows.last();
        let before = readable_settings(rows.drop_last());
        match (last.key, last.value) {
            (Some(k), Some(v)) => before.push((k@, v@)),
            _ => before,
        }
    }
}

/// Collects the preferences read back into key/value pairs.
pub fn collect_preferences(rows: &Vec<StoredSetting>) -> (res: Vec<Setting>)
    ensures
        res@.map_values(|s: Setting| setting_view(s)) == readable_settings(rows@),
{
    let mut out: Vec<Setting> = Vec::new();
    let n = rows.len();
    let mut i: usize = 0;
    while i < n
        invariant
            n == rows@.len(),
            i <= n,
            out@.map_values(|s: Setting| setting_view(s)) == readable_settings(
                rows@.subrange(0, i as int),
            ),
        decreases n - i,
    {
        let row = &rows[i];
        proof {
            assert(rows@.subrange(0, i + 1).drop_last() =~= rows@.subrange(0, i as int));
            assert(rows@.subrange(0, i + 1).last() == rows@[i as int]);
        }
        match (&row.key, &row.value) {
            (Some(k), Some(v)) => {
                out.push(setting(k.as_str(), v.as_str()));
                assert(out@.map_values(|s: Setting| setting_view(s)) =~= readable_settings(
                    rows@.subrange(0, i as int),
                ).push((k@, v@)));
            },
            _ => {},
        }
        i = i + 1;
    }
    assert(rows@.subrange(0, n as int) =~= rows@);
    out
}

/// The company as the user enters it.
#[derive(Debug)]
pub struct CompanyInput {
    pub name: String,
    pub cnpj: Option<String>,
    pub phone: Option<String>,
    pub address: Option<String>,
    pub logo_path: Option<String>,
}

/// The company needs a name.
pub fn validate_company(input: &CompanyInput) -> (res: Result<(), AppError>)
    ensures
        is_blank(input.name@) ==> res == Err::<(), AppError>(AppError::MissingCompanyName),
        !is_blank(input.name@) ==> res is Ok,
{
    if blank(input.name.as_str()) {
        Err(AppError::MissingCompanyName)
    } else {
        Ok(())
    }
}

/// The name a new database gives the company.
pub fn company_seed_name() -> (res: String)
    ensures
        res@ == "Meu Comércio"@,
{
    "Meu Comércio".to_owned()
}

/// The company record is required: reading it when it is missing is refused.
pub fn company_outcome<T>(found: Option<T>) -> (res: Result<T, AppError>)
    ensures
        found is None ==> res == Err::<T, AppError>(AppError::CompanyNotFound),
        found is Some ==> res == Ok::<T, AppError>(found.unwrap()),
{
    match found {
        Some(c) => Ok(c),
        None => Err(AppError::CompanyNotFound),
    }
}

} // verus!
