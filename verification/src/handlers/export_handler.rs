//! Text helpers of the document export: the localized labels, the escaping
//! of text for an RTF document and the name of the exported file.

use crate::models::{Patient, PatientView, Timestamp, Treatment, TreatmentView};
use crate::text::{decimal, decimal_nat, push_decimal, push_decimal_nat, str_eq};
use crate::text::is_ascii_alphanumeric;
use crate::trusted::{current_time, format_long_date, is_alphanumeric_char, long_date};
use vstd::prelude::*;
use vstd::utf8::char_is_scalar;

verus! {

/// The labels of an exported document in one language.
#[derive(Debug, Clone, Copy, PartialEq, Eq)]
pub struct FieldNames {
    pub title: &'static str,
    pub patient_info: &'static str,
    pub name: &'static str,
    pub email: &'static str,
    pub phone: &'static str,
    pub registration_date: &'static str,
    pub status: &'static str,
    pub active: &'static str,
    pub inactive: &'static str,
    pub description: &'static str,
    pub treatments_history: &'static str,
    pub no_treatments: &'static str,
    pub total_treatments: &'static str,
    pub treatment: &'static str,
    pub exported_on: &'static str,
}

/// The query of an export request.
#[derive(Debug, Clone, PartialEq, Eq)]
pub struct ExportQuery {
    /// The language code; English where there is none.
    pub lang: Option<String>,
}

/// The code of the language with Hebrew labels.
pub const HEBREW: &'static str = "he";

/// The labels in Hebrew.
pub open spec fn hebrew_field_names() -> FieldNames {
    FieldNames {
        title: "תיק רפואי למטופל",
        patient_info: "פרטי המטופל",
        name: "שם",
        email: "אימייל",
        phone: "טלפון",
        registration_date: "תאריך רישום",
        status: "סטטוס",
        active: "פעיל",
        inactive: "לא פעיל",
        description: "תיאור",
        treatments_history: "היסטוריית טיפולים",
        no_treatments: "לא נרשמו טיפולים",
        total_treatments: "סה״כ טיפולים",
        treatment: "טיפול",
        exported_on: "המסמך יוצא בתאריך",
    }
}

/// The labels in English.
pub open spec fn english_field_names() -> FieldNames {
    FieldNames {
        title: "Patient Medical Record",
        patient_info: "Patient Information",
        name: "Name",
        email: "Email",
        phone: "Phone Number",
        registration_date: "Registration Date",
        status: "Status",
        active: "Active",
        inactive: "Inactive",
        description: "Description",
        treatments_history: "Treatment History",
        no_treatments: "No treatments recorded",
        total_treatments: "Total treatments",
        treatment: "Treatment",
        exported_on: "Document exported on",
    }
}

/// The labels for a language code: Hebrew for [`HEBREW`], English for every other.
pub fn get_field_names(language: &str) -> (names: FieldNames)
    ensures
        names == field_names_for(language@),
{
    if str_eq(language, HEBREW) {
        FieldNames {
            title: "תיק רפואי למטופל",
            patient_info: "פרטי המטופל",
            name: "שם",
            email: "אימייל",
            phone: "טלפון",
            registration_date: "תאריך רישום",
            status: "סטטוס",
            active: "פעיל",
            inactive: "לא פעיל",
            description: "תיאור",
            treatments_history: "היסטוריית טיפולים",
            no_treatments: "לא נרשמו טיפולים",
            total_treatments: "סה״כ טיפולים",
            treatment: "טיפול",
            exported_on: "המסמך יוצא בתאריך",
        }
    } else {
        FieldNames {
            title: "Patient Medical Record",
            patient_info: "Patient Information",
            name: "Name",
            email: "Email",
            phone: "Phone Number",
            registration_date: "Registration Date",
            status: "Status",
            active: "Active",
            inactive: "Inactive",
            description: "Description",
            treatments_history: "Treatment History",
            no_treatments: "No treatments recorded",
            total_treatments: "Total treatments",
            treatment: "Treatment",
            exported_on: "Document exported on",
        }
    }
}

/// The number under which RTF writes a character outside Latin-1: the code
/// point as a signed 16-bit value where it is above 32767, which for code
/// points beyond the basic plane is the code point less 65536.
pub open spec fn rtf_unicode_number(c: char) -> int {
    if c as u32 > 32767 {
        c as u32 - 65536
    } else {
        c as u32 as int
    }
}

/// What one character of text becomes in an RTF document.
pub open spec fn rtf_escape_char(c: char) -> Seq<char> {
    if c == '\\' {
        seq!['\\', '\\']
    } else if c == '{' {
        seq!['\\', '{']
    } else if c == '}' {
        seq!['\\', '}']
    } else if c == '\n' {
        seq!['\\', 'p', 'a', 'r', ' ']
    } else if c == '\r' {
        Seq::empty()
    } else if c as u32 > 255 {
        seq!['\\', 'u'] + decimal(rtf_unicode_number(c)) + seq!['?']
    } else {
        seq![c]
    }
}

/// What a text becomes in an RTF document: each character escaped, in order.
pub open spec fn rtf_escape(text: Seq<char>) -> Seq<char>
    decreases text.len(),
{
    if text.len() == 0 {
        Seq::empty()
    } else {
        rtf_escape(text.drop_last()) + rtf_escape_char(text.last())
    }
}

/// Escapes a text for an RTF document. Backslashes and braces get a
/// backslash in front, a line feed becomes a paragraph break, carriage
/// returns are dropped, and every character outside Latin-1, the Hebrew
/// letters among them, is written as `\u`, its number and `?`.
pub fn escape_rtf_hebrew(text: &str) -> (escaped: String)
    ensures
        escaped@ == rtf_escape(text@),
{
    let mut result = String::new();
    for ch in it: text.chars()
        invariant
            it.seq() == text@,
            result@ == rtf_escape(text@.take(it.index())),
    {
        assert(text@.take(it.index() + 1).drop_last() == text@.take(it.index()));
        let code = ch as u32;
        proof {
            char_is_scalar(ch);
        }
        if ch == '\\' {
            result.push('\\');
            result.push('\\');
        } else if ch == '{' {
            result.push('\\');
            result.push('{');
        } else if ch == '}' {
            result.push('\\');
            result.push('}');
        } else if ch == '\n' {
            result.push('\\');
            result.push('p');
            result.push('a');
            result.push('r');
            result.push(' ');
        } else if ch == '\r' {
        } else if code > 255 {
            let number: i32 = if code > 32767 {
                code as i32 - 65536
            } else {
                code as i32
            };
            result.push('\\');
            result.push('u');
            push_decimal(&mut result, number);
            result.push('?');
        } else {
            result.push(ch);
        }
        assert(result@ == rtf_escape(text@.take(it.index())) + rtf_escape_char(ch));
    }
    assert(text@.take(text@.len() as int) == text@);
    result
}

/// A character is a letter or a number: within ASCII one of its letters
/// and digits, beyond ASCII what `char::is_alphanumeric` finds.
pub open spec fn alphanumeric(c: char) -> bool {
    if (c as u32) < 128 {
        is_ascii_alphanumeric(c)
    } else {
        is_alphanumeric_char(c)
    }
}

/// What one character of a name becomes in a file name, given whether it
/// is a letter or a number: itself where it is one, or a hyphen or an
/// underscore, and an underscore otherwise.
pub open spec fn sanitized_given(c: char, alphanumeric: bool) -> char {
    if alphanumeric || c == '-' || c == '_' {
        c
    } else {
        '_'
    }
}

/// What one character of a name becomes in a file name.
pub open spec fn sanitized_char(c: char) -> char {
    sanitized_given(c, alphanumeric(c))
}

/// What one character of a name becomes in a file name, given whether it
/// is a letter or a number.
pub fn sanitize_char(c: char, alphanumeric: bool) -> (r: char)
    ensures
        r == sanitized_given(c, alphanumeric),
{
    if alphanumeric || c == '-' || c == '_' {
        c
    } else {
        '_'
    }
}

/// Turns a name into one that is safe in a file name: every character that
/// is not a letter, a number, a hyphen or an underscore, blanks included,
/// becomes an underscore.
pub fn sanitize_filename(name: &str) -> (sanitized: String)
    ensures
        sanitized@ == name@.map_values(|c: char| sanitized_char(c)),
{
    let mut result = String::new();
    for ch in it: name.chars()
        invariant
            it.seq() == name@,
            result@ == name@.take(it.index()).map_values(|c: char| sanitized_char(c)),
    {
        result.push(sanitize_char(ch, ch.is_alphanumeric()));
        assert(result@ == name@.take(it.index() + 1).map_values(|c: char| sanitized_char(c)));
    }
    assert(name@.take(name@.len() as int) == name@);
    result
}

/// The language of an export where the query names none.
pub const DEFAULT_LANGUAGE: &'static str = "en";

impl ExportQuery {
    /// The language code of the export: the one in the query, or [`DEFAULT_LANGUAGE`].
    pub fn language(&self) -> (code: &str)
        ensures
            code@ == match self.lang {
                Some(lang) => lang@,
                None => DEFAULT_LANGUAGE@,
            },
    {
        match &self.lang {
            Some(lang) => lang.as_str(),
            None => DEFAULT_LANGUAGE,
        }
    }
}

/// The name of the file under which a patient's document is offered:
/// `patient_`, the sanitized name and `_export.rtf`.
pub fn export_filename(patient_name: &str) -> (filename: String)
    ensures
        filename@ == "patient_"@ + patient_name@.map_values(|c: char| sanitized_char(c))
            + "_export.rtf"@,
{
    let mut filename = "patient_".to_owned();
    filename.append(sanitize_filename(patient_name).as_str());
    filename.append("_export.rtf");
    filename
}

/// How an RTF document opens: version, code page and languages.
pub const RTF_PROLOGUE: &'static str = "{\\rtf1\\ansi\\ansicpg1255\\deff0\\deflang1033\\deflangfe1037 ";

/// The fonts of the document.
pub const RTF_FONTS: &'static str =
    "{\\fonttbl{\\f0\\fswiss\\fcharset177\\*\\fname Arial;}{\\f1\\froman\\fcharset0 Times New Roman;}}";

/// The colours of the document.
pub const RTF_COLORS: &'static str = "{\\colortbl;\\red0\\green0\\blue0;}";

/// How the text of a right-to-left document opens.
pub const RTF_BODY_RTL: &'static str = "\\uc1\\pard\\rtlpar\\qr\\cf1\\lang1037\\f0\\fs22 ";

/// How the text of a left-to-right document opens.
pub const RTF_BODY_LTR: &'static str = "\\uc1\\pard\\ltrpar\\cf1\\lang1037\\f0\\fs22 ";

/// What opens a paragraph that runs from right to left.
pub const RTL_MARK: &'static str = "\\rtlpar\\qr";

/// What opens a paragraph that runs from left to right.
pub const LTR_MARK: &'static str = "\\ltrpar\\ql";

/// What stands before and after the document's title.
pub const TITLE_OPEN: &'static str = "\\f1\\fs28\\b ";

pub const TITLE_CLOSE: &'static str = " \\b0\\fs24\\par\\par";

/// What stands before and after the heading of a section.
pub const HEADING_OPEN: &'static str = "\\fs20\\b ";

pub const HEADING_CLOSE: &'static str = " \\b0\\fs18\\par";

/// What stands before a label, between label and value, and at the end of a paragraph.
pub const LABEL_OPEN: &'static str = "\\b ";

pub const LABEL_CLOSE: &'static str = ": \\b0 ";

pub const PARAGRAPH_END: &'static str = "\\par";

/// What stands around the note that there are no treatments.
pub const NOTE_OPEN: &'static str = "\\i ";

pub const NOTE_CLOSE: &'static str = ".\\i0\\par";

/// What stands between the parts of a treatment's heading and after it.
pub const NUMBER_SIGN: &'static str = " #";

pub const DATE_DASH: &'static str = " - ";

pub const ENTRY_HEADING_CLOSE: &'static str = "\\b0\\par";

/// What ends a paragraph and leaves a blank line.
pub const DOUBLE_PARAGRAPH_END: &'static str = "\\par\\par";

/// What stands between a plain label and its value.
pub const COLON: &'static str = ": ";

/// The rule above the footer, and what stands around the footer.
pub const FOOTER_RULE: &'static str = "\\par---\\par";

pub const FOOTER_OPEN: &'static str = "\\fs16\\i ";

pub const FOOTER_CLOSE: &'static str = "\\i0\\fs18\\par";

/// How an RTF document closes.
pub const RTF_END: &'static str = "}";

/// The date as the document shows it, given what the calendar made of the
/// instant: its text, or nothing where the instant lies outside the calendar.
pub open spec fn date_given(formatted: Option<Seq<char>>) -> Seq<char> {
    match formatted {
        Some(text) => text,
        None => Seq::empty(),
    }
}

/// The date of an instant as the document shows it.
pub open spec fn date_text(instant: Timestamp) -> Seq<char> {
    date_given(long_date(instant.seconds as int, instant.nanos as int))
}

/// What opens each paragraph of a document in the given direction.
pub open spec fn direction_mark(rtl: bool) -> Seq<char> {
    if rtl {
        RTL_MARK@
    } else {
        LTR_MARK@
    }
}

/// A title or heading: the text, escaped, between what opens and closes it.
#[verifier::opaque]
pub open spec fn heading(
    mark: Seq<char>,
    open: Seq<char>,
    text: Seq<char>,
    close: Seq<char>,
) -> Seq<char> {
    mark + open + rtf_escape(text) + close
}

/// A line that shows a label, escaped and in bold, and a value as it is.
pub open spec fn field_line(mark: Seq<char>, label: Seq<char>, value: Seq<char>) -> Seq<char> {
    mark + LABEL_OPEN@ + rtf_escape(label) + LABEL_CLOSE@ + value + PARAGRAPH_END@
}

/// One treatment: a heading with its number and date, then its summary.
pub open spec fn treatment_entry(
    mark: Seq<char>,
    label: Seq<char>,
    number: nat,
    treatment: TreatmentView,
) -> Seq<char> {
    mark + LABEL_OPEN@ + rtf_escape(label) + NUMBER_SIGN@ + decimal_nat(number) + DATE_DASH@ + date_text(
        treatment.date,
    ) + ENTRY_HEADING_CLOSE@ + mark + rtf_escape(treatment.summary) + DOUBLE_PARAGRAPH_END@
}

/// The treatments in their order, numbered downwards: the first of
/// `treatments` has the number `total`, each next one a number less.
pub open spec fn treatment_entries(
    mark: Seq<char>,
    label: Seq<char>,
    treatments: Seq<TreatmentView>,
    total: nat,
) -> Seq<char>
    decreases treatments.len(),
{
    if treatments.len() == 0 {
        Seq::empty()
    } else {
        treatment_entries(mark, label, treatments.drop_last(), total) + treatment_entry(
            mark,
            label,
            (total - (treatments.len() - 1)) as nat,
            treatments.last(),
        )
    }
}

/// The section on the treatments: a note where there are none, else their
/// number and the treatments themselves.
#[verifier::opaque]
pub open spec fn treatments_section(
    names: FieldNames,
    mark: Seq<char>,
    treatments: Seq<TreatmentView>,
) -> Seq<char> {
    if treatments.len() == 0 {
        mark + NOTE_OPEN@ + rtf_escape(names.no_treatments@) + NOTE_CLOSE@
    } else {
        mark + rtf_escape(names.total_treatments@) + COLON@ + decimal_nat(treatments.len())
            + DOUBLE_PARAGRAPH_END@ + treatment_entries(mark, names.treatment@, treatments, treatments.len())
    }
}

/// The section on the patient: one line for each field, the description
/// only where there is one.
#[verifier::opaque]
pub open spec fn patient_section(
    names: FieldNames,
    mark: Seq<char>,
    patient: PatientView,
) -> Seq<char> {
    field_line(mark, names.name@, rtf_escape(patient.name)) + field_line(
        mark,
        names.email@,
        rtf_escape(patient.email),
    ) + field_line(mark, names.phone@, rtf_escape(patient.phone_number)) + field_line(
        mark,
        names.registration_date@,
        date_text(patient.date),
    ) + field_line(
        mark,
        names.status@,
        rtf_escape(
            if patient.active {
                names.active@
            } else {
                names.inactive@
            },
        ),
    ) + (if patient.description.len() > 0 {
        field_line(mark, names.description@, rtf_escape(patient.description))
    } else {
        Seq::empty()
    })
}

/// How a document in the given direction opens: prologue, fonts, colours
/// and the settings of the text.
#[verifier::opaque]
pub open spec fn opening(rtl: bool) -> Seq<char> {
    RTF_PROLOGUE@ + RTF_FONTS@ + RTF_COLORS@ + (if rtl {
        RTF_BODY_RTL@
    } else {
        RTF_BODY_LTR@
    })
}

/// The footer: a rule and the date of the export.
#[verifier::opaque]
pub open spec fn footer(names: FieldNames, mark: Seq<char>, now: Timestamp) -> Seq<char> {
    FOOTER_RULE@ + mark + FOOTER_OPEN@ + rtf_escape(names.exported_on@) + COLON@ + date_text(now)
        + FOOTER_CLOSE@
}

/// The RTF document of a patient's record: prologue, title, the patient's
/// fields, the treatments and a footer, with the labels of the language
/// and in its direction.
pub open spec fn rtf_document(
    language: Seq<char>,
    patient: PatientView,
    treatments: Seq<TreatmentView>,
    now: Timestamp,
) -> Seq<char> {
    let names = field_names_for(language);
    let rtl = language == HEBREW@;
    let mark = direction_mark(rtl);
    opening(rtl) + heading(mark, TITLE_OPEN@, names.title@, TITLE_CLOSE@) + heading(
        mark,
        HEADING_OPEN@,
        names.patient_info@,
        HEADING_CLOSE@,
    ) + patient_section(names, mark, patient) + PARAGRAPH_END@ + heading(
        mark,
        HEADING_OPEN@,
        names.treatments_history@,
        HEADING_CLOSE@,
    ) + treatments_section(names, mark, treatments) + footer(names, mark, now) + RTF_END@
}

/// The labels for a language code.
pub open spec fn field_names_for(language: Seq<char>) -> FieldNames {
    if language == HEBREW@ {
        hebrew_field_names()
    } else {
        english_field_names()
    }
}

/// The views of the treatments, in their order.
pub open spec fn treatment_views(treatments: Seq<Treatment>) -> Seq<TreatmentView> {
    treatments.map_values(|t: Treatment| t@)
}

/// The date as the document shows it, given what the calendar made of the instant.
pub fn date_or_blank(formatted: Option<String>) -> (text: String)
    ensures
        text@ == date_given(
            match formatted {
                Some(text) => Some(text@),
                None => None,
            },
        ),
{
    match formatted {
        Some(text) => text,
        None => String::new(),
    }
}

fn date_string(instant: Timestamp) -> (text: String)
    ensures
        text@ == date_text(instant),
{
    date_or_blank(format_long_date(instant))
}

fn heading_text(mark: &str, open: &str, text: &str, close: &str) -> (line: String)
    ensures
        line@ == heading(mark@, open@, text@, close@),
{
    reveal(heading);
    let mut line = mark.to_owned();
    line.append(open);
    line.append(escape_rtf_hebrew(text).as_str());
    line.append(close);
    line
}

fn field_line_text(mark: &str, label: &str, value: &str) -> (line: String)
    ensures
        line@ == field_line(mark@, label@, value@),
{
    let mut line = mark.to_owned();
    line.append(LABEL_OPEN);
    line.append(escape_rtf_hebrew(label).as_str());
    line.append(LABEL_CLOSE);
    line.append(value);
    line.append(PARAGRAPH_END);
    line
}

fn treatment_entry_text(
    mark: &str,
    label: &str,
    number: usize,
    treatment: &Treatment,
) -> (entry: String)
    ensures
        entry@ == treatment_entry(mark@, label@, number as nat, treatment@),
{
    let mut entry = mark.to_owned();
    entry.append(LABEL_OPEN);
    entry.append(escape_rtf_hebrew(label).as_str());
    entry.append(NUMBER_SIGN);
    push_decimal_nat(&mut entry, number as u64);
    entry.append(DATE_DASH);
    entry.append(date_string(treatment.date).as_str());
    entry.append(ENTRY_HEADING_CLOSE);
    entry.append(mark);
    entry.append(escape_rtf_hebrew(treatment.summary.as_str()).as_str());
    entry.append(DOUBLE_PARAGRAPH_END);
    entry
}

fn footer_text(names: &FieldNames, mark: &str, now: Timestamp) -> (text: String)
    ensures
        text@ == footer(*names, mark@, now),
{
    reveal(footer);
    let mut text = FOOTER_RULE.to_owned();
    text.append(mark);
    text.append(FOOTER_OPEN);
    text.append(escape_rtf_hebrew(names.exported_on).as_str());
    text.append(COLON);
    text.append(date_string(now).as_str());
    text.append(FOOTER_CLOSE);
    text
}

fn patient_section_text(names: &FieldNames, mark: &str, patient: &Patient) -> (section: String)
    ensures
        section@ == patient_section(*names, mark@, patient@),
{
    reveal(patient_section);
    let name = escape_rtf_hebrew(patient.name.as_str());
    let email = escape_rtf_hebrew(patient.email.as_str());
    let phone = escape_rtf_hebrew(patient.phone_number.as_str());
    let date = date_string(patient.date);
    let status = escape_rtf_hebrew(if patient.active {
        names.active
    } else {
        names.inactive
    });
    let mut section = field_line_text(mark, names.name, name.as_str());
    section.append(field_line_text(mark, names.email, email.as_str()).as_str());
    section.append(field_line_text(mark, names.phone, phone.as_str()).as_str());
    section.append(field_line_text(mark, names.registration_date, date.as_str()).as_str());
    section.append(field_line_text(mark, names.status, status.as_str()).as_str());
    if !patient.description.as_str().is_empty() {
        let description = escape_rtf_hebrew(patient.description.as_str());
        section.append(field_line_text(mark, names.description, description.as_str()).as_str());
    } else {
        assert(section@ + Seq::<char>::empty() == section@);
    }
    section
}

fn treatment_entries_text(mark: &str, label: &str, treatments: &Vec<Treatment>) -> (entries: String)
    ensures
        entries@ == treatment_entries(
            mark@,
            label@,
            treatment_views(treatments@),
            treatments.len() as nat,
        ),
{
    let ghost views = treatment_views(treatments@);
    let total = treatments.len();
    let mut entries = String::new();
    let mut index: usize = 0;
    while index < total
        invariant
            index <= total,
            total == treatments.len(),
            views == treatment_views(treatments@),
            entries@ == treatment_entries(mark@, label@, views.take(index as int), total as nat),
        decreases total - index,
    {
        assert(views.take(index + 1).drop_last() == views.take(index as int));
        let entry = treatment_entry_text(mark, label, total - index, &treatments[index]);
        entries.append(entry.as_str());
        index += 1;
    }
    assert(views.take(total as int) == views);
    entries
}

fn treatments_section_text(
    names: &FieldNames,
    mark: &str,
    treatments: &Vec<Treatment>,
) -> (section: String)
    ensures
        section@ == treatments_section(*names, mark@, treatment_views(treatments@)),
{
    reveal(treatments_section);
    let mut section = mark.to_owned();
    if treatments.len() == 0 {
        section.append(NOTE_OPEN);
        section.append(escape_rtf_hebrew(names.no_treatments).as_str());
        section.append(NOTE_CLOSE);
    } else {
        section.append(escape_rtf_hebrew(names.total_treatments).as_str());
        section.append(COLON);
        push_decimal_nat(&mut section, treatments.len() as u64);
        section.append(DOUBLE_PARAGRAPH_END);
        section.append(treatment_entries_text(mark, names.treatment, treatments).as_str());
    }
    section
}

fn opening_text(rtl: bool) -> (text: String)
    ensures
        text@ == opening(rtl),
{
    reveal(opening);
    let mut text = RTF_PROLOGUE.to_owned();
    text.append(RTF_FONTS);
    text.append(RTF_COLORS);
    text.append(if rtl {
        RTF_BODY_RTL
    } else {
        RTF_BODY_LTR
    });
    text
}

/// Writes the RTF document of a patient's record as exported at `now`, in
/// the language with the given code.
pub fn generate_rtf_document_at(
    patient: &Patient,
    treatments: &Vec<Treatment>,
    language: &str,
    now: Timestamp,
) -> (document: String)
    ensures
        document@ == rtf_document(language@, patient@, treatment_views(treatments@), now),
{
    let rtl = str_eq(language, HEBREW);
    let names = get_field_names(language);
    let mark = if rtl {
        RTL_MARK
    } else {
        LTR_MARK
    };
    let mut rtf = opening_text(rtl);
    rtf.append(heading_text(mark, TITLE_OPEN, names.title, TITLE_CLOSE).as_str());
    rtf.append(heading_text(mark, HEADING_OPEN, names.patient_info, HEADING_CLOSE).as_str());
    rtf.append(patient_section_text(&names, mark, patient).as_str());
    rtf.append(PARAGRAPH_END);
    rtf.append(heading_text(mark, HEADING_OPEN, names.treatments_history, HEADING_CLOSE).as_str());
    rtf.append(treatments_section_text(&names, mark, treatments).as_str());
    rtf.append(footer_text(&names, mark, now).as_str());
    rtf.append(RTF_END);
    rtf
}

/// Writes the RTF document of a patient's record as exported at the system
/// clock's present reading. Whatever the clock reads, the document is the
/// one that [`rtf_document`] gives for some instant.
pub fn generate_rtf_document(
    patient: &Patient,
    treatments: &Vec<Treatment>,
    language: &str,
) -> (document: String)
    ensures
        exists|now: Timestamp| document@ == #[trigger] rtf_document(
            language@,
            patient@,
            treatment_views(treatments@),
            now,
        ),
{
    generate_rtf_document_at(patient, treatments, language, current_time())
}

} // verus!
