use vstd::prelude::*;

use crate::text::{decimal, last_index_of, lemma_last_index_of, push_decimal, replace_char, replaced, rfind_char};

verus! {

/// For how many days a log file is kept after the day it was written on.
pub const RETENTION_DAYS: i32 = 7;

/// The day that a text of the form year-month-day names, as the number of
/// days since the last day of the year 1 BCE in the proleptic Gregorian
/// calendar, so that January 1 of the year 1 is day 1; `None` for a text that
/// names no day.
pub uninterp spec fn date_of(text: Seq<char>) -> Option<i32>;

/// `chrono::NaiveDate::parse_from_str` with the format "%Y-%m-%d", followed by
/// `chrono::Datelike::num_days_from_ce` on the date that was read. Parsing
/// looks at the text and the format alone, and the day number is a function
/// of the date, so the result is a function of the text: the contract gives
/// it the name `date_of` and claims nothing else of it.
#[verifier::external_body]
fn parse_date(text: &str) -> (r: Option<i32>)
    ensures
        r == date_of(text@),
{
    match chrono::NaiveDate::parse_from_str(text, "%Y-%m-%d") {
        Ok(date) => Some(chrono::Datelike::num_days_from_ce(&date)),
        Err(_) => None,
    }
}

/// The name of a file without its extension: what stands in front of the
/// last dot, or the whole name if it holds no dot or only begins with one.
pub open spec fn stem(file_name: Seq<char>) -> Seq<char> {
    let dot = last_index_of(file_name, '.');
    if dot > 0 {
        file_name.take(dot)
    } else {
        file_name
    }
}

/// Whether a log file written on the day `day` is due for deletion on the
/// day `today`: it is once more than `RETENTION_DAYS` days have passed.
pub open spec fn is_old(day: i32, today: i32) -> bool {
    day + RETENTION_DAYS < today
}

/// What is known of a file of the log directory on the day `today`: whether
/// it is due for deletion, or `None` if its name is not that of a log file.
pub open spec fn due(file_name: Seq<char>, today: i32) -> Option<bool> {
    match date_of(stem(file_name)) {
        Some(day) => Some(is_old(day, today)),
        None => None,
    }
}

/// One line of the log: the time, the place in the source and the message.
/// Every line break in it is followed by a tabulator, so that the lines of
/// one entry stand out.
pub open spec fn entry(timestamp: Seq<char>, file: Seq<char>, line: u32, message: Seq<char>) -> Seq<
    char,
> {
    replaced(
        "["@ + timestamp + "] ["@ + file + ":"@ + decimal(line as nat) + "] "@ + message,
        '\n',
        "\n\t"@,
    )
}

/// The path of the log file of the day `date` in the directory `directory`.
pub open spec fn path_of(directory: Seq<char>, date: Seq<char>) -> Seq<char> {
    directory + "\\"@ + date + ".log"@
}

/// Returns the name of a file without its extension.
pub fn file_stem(file_name: &str) -> (r: String)
    ensures
        r@ == stem(file_name@),
{
    proof {
        lemma_last_index_of(file_name@, '.');
    }
    match rfind_char(file_name, '.') {
        Some(dot) => {
            if dot > 0 {
                let front = file_name.substring_char(0, dot);
                proof {
                    assert(file_name@.subrange(0, dot as int) =~= file_name@.take(dot as int));
                }
                String::from_str(front)
            } else {
                String::from_str(file_name)
            }
        },
        None => String::from_str(file_name),
    }
}

/// True if a log file written on the day `day` is due for deletion on the
/// day `today`. Both days are day numbers as `date_of` gives them.
pub fn expired(day: i32, today: i32) -> (r: bool)
    ensures
        r == is_old(day, today),
{
    (day as i64) + (RETENTION_DAYS as i64) < (today as i64)
}

/// Says whether the file `file_name` of the log directory is due for
/// deletion on the day `today`. Log files are named after the day they were
/// written on; for a file with any other name the answer is `None`.
pub fn is_expired(file_name: &str, today: i32) -> (r: Option<bool>)
    ensures
        r == due(file_name@, today),
{
    let name = file_stem(file_name);
    match parse_date(name.as_str()) {
        Some(day) => Some(expired(day, today)),
        None => None,
    }
}

/// Goes through `entries`, the names of the files of the log directory, and
/// says for each whether it has to be deleted on the day `today`: the result
/// has one answer for each entry, in the same order. Files that are not named
/// like log files are kept.
pub fn initialize(entries: &Vec<String>, today: i32) -> (r: Vec<bool>)
    ensures
        r.len() == entries.len(),
        forall|i: int|
            0 <= i < entries.len() ==> r[i] == (due((#[trigger] entries[i])@, today) == Some(true)),
{
    let mut delete: Vec<bool> = Vec::new();
    let mut i: usize = 0;
    while i < entries.len()
        invariant
            0 <= i <= entries.len(),
            delete.len() == i,
            forall|j: int|
                0 <= j < i ==> delete[j] == (due((#[trigger] entries[j])@, today) == Some(true)),
        decreases entries.len() - i,
    {
        let old_enough = match is_expired(entries[i].as_str(), today) {
            Some(answer) => answer,
            None => false,
        };
        delete.push(old_enough);
        i = i + 1;
    }
    delete
}

/// Formats one entry of the log.
pub fn log(timestamp: &str, file: &str, line: u32, message: &str) -> (r: String)
    ensures
        r@ == entry(timestamp@, file@, line, message@),
{
    let mut formatted = String::from_str("[");
    formatted.append(timestamp);
    formatted.append("] [");
    formatted.append(file);
    formatted.append(":");
    push_decimal(&mut formatted, line as u64);
    formatted.append("] ");
    formatted.append(message);
    replace_char(formatted.as_str(), '\n', "\n\t")
}

/// Returns the path of the log file of the day `date` in the directory
/// `directory`.
pub fn log_filepath(directory: &str, date: &str) -> (r: String)
    ensures
        r@ == path_of(directory@, date@),
{
    let mut path = String::from_str(directory);
    path.append("\\");
    path.append(date);
    path.append(".log");
    path
}

} // verus!
