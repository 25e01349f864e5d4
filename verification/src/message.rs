//! How a report on the two countries reads.

use crate::country::Country;
use crate::numeral::{
    grouped, is_one_line, lemma_numerals_are_one_line, lemma_one_line_joined, signed_decimal,
    signed_two_places, two_places, write_grouped, write_signed_decimal, write_signed_two_places,
    write_two_places,
};
use crate::stats::{DayView, VaccDayData, VaccedCount};
use vstd::prelude::*;
use vstd::string::*;

verus! {

/// How a total and its change are written: the total in groups of three
/// digits, its share of the population, then in brackets the change with its
/// sign, `mark`, and the share of the change.
pub open spec fn figures_text(figures: VaccedCount, mark: Seq<char>) -> Seq<char> {
    grouped(figures.count as nat) + " "@ + two_places(figures.count_prcnt as nat) + "% ("@
        + signed_decimal(figures.diff as int) + mark + signed_two_places(figures.diff_prcnt as int)
        + "%)"@
}

/// A country's line of a report: its flag, the people with a first dose, the
/// people completely vaccinated, and in brackets the date of the record.
pub open spec fn country_line(country: Country, day: DayView) -> Seq<char> {
    country.spec_flag() + " "@ + figures_text(day.first, ", "@) + " have had a first dose, "@
        + figures_text(day.full, " 📈, "@) + " are completely vaccinated. ("@ + day.date + ")"@
}

/// A report: a heading, then the line of the United Kingdom, then the line of
/// Canada.
pub open spec fn report(uk: DayView, can: DayView) -> Seq<char> {
    "💉💉💉\n"@ + country_line(Country::UK, uk) + "\n"@ + country_line(Country::CAN, can)
}

/// Figures are written without a line break where the mark holds none.
proof fn lemma_figures_text_is_one_line(figures: VaccedCount, mark: Seq<char>)
    requires
        is_one_line(mark),
    ensures
        is_one_line(figures_text(figures, mark)),
{
    reveal_strlit(" ");
    reveal_strlit("% (");
    reveal_strlit("%)");
    lemma_numerals_are_one_line(figures.count as nat, figures.diff as int);
    lemma_numerals_are_one_line(figures.count_prcnt as nat, figures.diff_prcnt as int);
    let text = grouped(figures.count as nat);
    lemma_one_line_joined(text, " "@);
    let text = text + " "@;
    lemma_one_line_joined(text, two_places(figures.count_prcnt as nat));
    let text = text + two_places(figures.count_prcnt as nat);
    lemma_one_line_joined(text, "% ("@);
    let text = text + "% ("@;
    lemma_one_line_joined(text, signed_decimal(figures.diff as int));
    let text = text + signed_decimal(figures.diff as int);
    lemma_one_line_joined(text, mark);
    let text = text + mark;
    lemma_one_line_joined(text, signed_two_places(figures.diff_prcnt as int));
    let text = text + signed_two_places(figures.diff_prcnt as int);
    lemma_one_line_joined(text, "%)"@);
}

/// A country's line is one line: it holds no line break unless the date of
/// the record holds one.
pub proof fn lemma_country_line_is_one_line(country: Country, day: DayView)
    requires
        is_one_line(day.date),
    ensures
        is_one_line(country_line(country, day)),
{
    reveal_strlit("🇬🇧");
    reveal_strlit("🇨🇦");
    reveal_strlit(" ");
    reveal_strlit(", ");
    reveal_strlit(" have had a first dose, ");
    reveal_strlit(" 📈, ");
    reveal_strlit(" are completely vaccinated. (");
    reveal_strlit(")");
    lemma_figures_text_is_one_line(day.first, ", "@);
    lemma_figures_text_is_one_line(day.full, " 📈, "@);
    let line = country.spec_flag();
    lemma_one_line_joined(line, " "@);
    let line = line + " "@;
    lemma_one_line_joined(line, figures_text(day.first, ", "@));
    let line = line + figures_text(day.first, ", "@);
    lemma_one_line_joined(line, " have had a first dose, "@);
    let line = line + " have had a first dose, "@;
    lemma_one_line_joined(line, figures_text(day.full, " 📈, "@));
    let line = line + figures_text(day.full, " 📈, "@);
    lemma_one_line_joined(line, " are completely vaccinated. ("@);
    let line = line + " are completely vaccinated. ("@;
    lemma_one_line_joined(line, day.date);
    let line = line + day.date;
    lemma_one_line_joined(line, ")"@);
}

/// Two reports on the same figures read the same.
pub proof fn lemma_report_is_determined(
    uk: DayView,
    can: DayView,
    uk_again: DayView,
    can_again: DayView,
)
    requires
        uk == uk_again,
        can == can_again,
    ensures
        report(uk, can) == report(uk_again, can_again),
{
}

/// Appends a total and its change to `out`, with `mark` between the change
/// and its share.
fn write_figures(out: &mut String, figures: &VaccedCount, mark: &str)
    ensures
        final(out)@ == old(out)@ + figures_text(*figures, mark@),
{
    write_grouped(out, figures.count as u64);
    out.append(" ");
    write_two_places(out, figures.count_prcnt);
    out.append("% (");
    write_signed_decimal(out, figures.diff);
    out.append(mark);
    write_signed_two_places(out, figures.diff_prcnt);
    out.append("%)");
    assert(final(out)@ =~= old(out)@ + figures_text(*figures, mark@));
}

/// Writes a country's line of a report.
pub fn format_line(country: Country, day: &VaccDayData) -> (line: String)
    ensures
        line@ == country_line(country, day@),
{
    let mut line = country.flag().to_owned();
    line.append(" ");
    write_figures(&mut line, &day.first, ", ");
    line.append(" have had a first dose, ");
    write_figures(&mut line, &day.full, " 📈, ");
    line.append(" are completely vaccinated. (");
    line.append(day.date.as_str());
    line.append(")");
    line
}

/// Writes the report on the two countries.
pub fn format_report(uk: &VaccDayData, can: &VaccDayData) -> (text: String)
    ensures
        text@ == report(uk@, can@),
{
    let mut text = "💉💉💉\n".to_owned();
    text.append(format_line(Country::UK, uk).as_str());
    text.append("\n");
    text.append(format_line(Country::CAN, can).as_str());
    text
}

} // verus!
