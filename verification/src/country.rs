//! The two countries whose figures are reported, and where each publishes
//! them.

use crate::json::is_plain_path;
use vstd::prelude::*;

verus! {

/// The countries whose figures are reported.
#[derive(Clone, Copy, Debug, PartialEq, Eq, Structural)]
pub enum Country {
    UK,
    CAN,
}

/// The entries that are read from a country's latest record.
///
/// For the United Kingdom `Doses` counts the people who had a first dose; for
/// Canada it counts every dose given, so that the people with a first dose
/// alone are `Doses` less `Complete`.
#[derive(Clone, Copy, Debug, PartialEq, Eq, Structural)]
pub enum Entry {
    Doses,
    DosesChange,
    Complete,
    CompleteChange,
    Date,
}

/// Whether an address opens with the scheme of HTTPS and names something
/// behind it.
pub open spec fn is_https(url: Seq<char>) -> bool {
    url.len() > 8 && url.subrange(0, 8) =~= "https://"@
}

impl Country {
    /// The number of inhabitants that a country's percentages are taken of.
    pub open spec fn spec_population(self) -> int {
        match self {
            Country::UK => 66_800_000,
            Country::CAN => 37_590_000,
        }
    }

    /// The address that a country's figures are fetched from.
    pub open spec fn spec_base_url(self) -> Seq<char> {
        match self {
            Country::UK => "https://api.coronavirus.data.gov.uk/v2/data"@,
            Country::CAN => "https://api.covid19tracker.ca/summary"@,
        }
    }

    /// The query parameters of a country's request, in the order in which
    /// they are sent. A key may occur more than once.
    pub open spec fn spec_query(self) -> Seq<(Seq<char>, Seq<char>)> {
        match self {
            Country::UK => seq![
                ("areaType"@, "overview"@),
                ("metric"@, "cumPeopleVaccinatedFirstDoseByPublishDate"@),
                ("metric"@, "cumPeopleVaccinatedCompleteByPublishDate"@),
                ("metric"@, "newPeopleVaccinatedFirstDoseByPublishDate"@),
                ("metric"@, "newPeopleVaccinatedCompleteByPublishDate"@),
            ],
            Country::CAN => Seq::empty(),
        }
    }

    /// The path at which a country's response holds an entry of its latest
    /// record.
    pub open spec fn spec_path(self, entry: Entry) -> Seq<char> {
        match self {
            Country::UK => match entry {
                Entry::Doses => "body.0.cumPeopleVaccinatedFirstDoseByPublishDate"@,
                Entry::DosesChange => "body.0.newPeopleVaccinatedFirstDoseByPublishDate"@,
                Entry::Complete => "body.0.cumPeopleVaccinatedCompleteByPublishDate"@,
                Entry::CompleteChange => "body.0.newPeopleVaccinatedCompleteByPublishDate"@,
                Entry::Date => "body.0.date"@,
            },
            Country::CAN => match entry {
                Entry::Doses => "data.0.total_vaccinations"@,
                Entry::DosesChange => "data.0.change_vaccinations"@,
                Entry::Complete => "data.0.total_vaccinated"@,
                Entry::CompleteChange => "data.0.change_vaccinated"@,
                Entry::Date => "data.0.latest_date"@,
            },
        }
    }

    /// The flag that opens a country's line of a report.
    pub open spec fn spec_flag(self) -> Seq<char> {
        match self {
            Country::UK => "🇬🇧"@,
            Country::CAN => "🇨🇦"@,
        }
    }

    /// The number of inhabitants that a country's percentages are taken of.
    pub fn population(self) -> (people: u32)
        ensures
            people == self.spec_population(),
            people > 0,
    {
        match self {
            Country::UK => 66_800_000,
            Country::CAN => 37_590_000,
        }
    }

    /// The address that a country's figures are fetched from: an absolute
    /// address that is reached over HTTPS.
    pub fn base_url(self) -> (url: &'static str)
        ensures
            url@ == self.spec_base_url(),
            is_https(url@),
    {
        proof {
            reveal_strlit("https://api.coronavirus.data.gov.uk/v2/data");
            reveal_strlit("https://api.covid19tracker.ca/summary");
            reveal_strlit("https://");
        }
        match self {
            Country::UK => "https://api.coronavirus.data.gov.uk/v2/data",
            Country::CAN => "https://api.covid19tracker.ca/summary",
        }
    }

    /// The query parameters of a country's request, in the order in which
    /// they are to be sent.
    pub fn query(self) -> (params: Vec<(&'static str, &'static str)>)
        ensures
            params.len() == self.spec_query().len(),
            forall|i: int|
                0 <= i < params.len() ==> (#[trigger] params[i]).0@ == self.spec_query()[i].0
                    && params[i].1@ == self.spec_query()[i].1,
    {
        match self {
            Country::UK => vec![
                ("areaType", "overview"),
                ("metric", "cumPeopleVaccinatedFirstDoseByPublishDate"),
                ("metric", "cumPeopleVaccinatedCompleteByPublishDate"),
                ("metric", "newPeopleVaccinatedFirstDoseByPublishDate"),
                ("metric", "newPeopleVaccinatedCompleteByPublishDate"),
            ],
            Country::CAN => Vec::new(),
        }
    }

    /// The path at which a country's response holds an entry of its latest
    /// record.
    pub fn path(self, entry: Entry) -> (path: &'static str)
        ensures
            path@ == self.spec_path(entry),
            is_plain_path(path@),
    {
        proof {
            reveal_strlit("body.0.cumPeopleVaccinatedFirstDoseByPublishDate");
            reveal_strlit("body.0.newPeopleVaccinatedFirstDoseByPublishDate");
            reveal_strlit("body.0.cumPeopleVaccinatedCompleteByPublishDate");
            reveal_strlit("body.0.newPeopleVaccinatedCompleteByPublishDate");
            reveal_strlit("body.0.date");
            reveal_strlit("data.0.total_vaccinations");
            reveal_strlit("data.0.change_vaccinations");
            reveal_strlit("data.0.total_vaccinated");
            reveal_strlit("data.0.change_vaccinated");
            reveal_strlit("data.0.latest_date");
        }
        match self {
            Country::UK => match entry {
                Entry::Doses => "body.0.cumPeopleVaccinatedFirstDoseByPublishDate",
                Entry::DosesChange => "body.0.newPeopleVaccinatedFirstDoseByPublishDate",
                Entry::Complete => "body.0.cumPeopleVaccinatedCompleteByPublishDate",
                Entry::CompleteChange => "body.0.newPeopleVaccinatedCompleteByPublishDate",
                Entry::Date => "body.0.date",
            },
            Country::CAN => match entry {
                Entry::Doses => "data.0.total_vaccinations",
                Entry::DosesChange => "data.0.change_vaccinations",
                Entry::Complete => "data.0.total_vaccinated",
                Entry::CompleteChange => "data.0.change_vaccinated",
                Entry::Date => "data.0.latest_date",
            },
        }
    }

    /// The flag that opens a country's line of a report.
    pub fn flag(self) -> (flag: &'static str)
        ensures
            flag@ == self.spec_flag(),
    {
        match self {
            Country::UK => "🇬🇧",
            Country::CAN => "🇨🇦",
        }
    }
}

} // verus!
