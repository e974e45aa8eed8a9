//! Backups: a copy of a database file in the same directory, named after the
//! file and the second at which the copy was made.

use crate::config::text_of;
use crate::error::{bare_failure, failure, ErrorKind, LocationError, LocationErrorView};
use crate::paths::{file_name, file_name_of, join_path, joined_path, parent_of, parent_path};
use crate::plan::{refusal, FileStep, FileStepView, MigrationPlan, MigrationPlanView};
use crate::resolver::outcome_of;
use vstd::prelude::*;

verus! {

/// The character that writes a number below ten.
pub open spec fn digit_char(digit: nat) -> char {
    if digit == 0 {
        '0'
    } else if digit == 1 {
        '1'
    } else if digit == 2 {
        '2'
    } else if digit == 3 {
        '3'
    } else if digit == 4 {
        '4'
    } else if digit == 5 {
        '5'
    } else if digit == 6 {
        '6'
    } else if digit == 7 {
        '7'
    } else if digit == 8 {
        '8'
    } else {
        '9'
    }
}

/// A number in decimal, without sign or leading zeros.
pub open spec fn decimal_digits(n: nat) -> Seq<char>
    decreases n,
{
    if n < 10 {
        seq![digit_char(n)]
    } else {
        decimal_digits(n / 10).push(digit_char(n % 10))
    }
}

/// Whether the character is one of the ten decimal digits.
pub open spec fn is_decimal_digit(c: char) -> bool {
    '0' <= c <= '9'
}

/// A number in decimal is written with at least one character, all of them
/// digits.
pub proof fn lemma_decimal_digits(n: nat)
    ensures
        decimal_digits(n).len() >= 1,
        forall|i: int| 0 <= i < decimal_digits(n).len() ==> is_decimal_digit(decimal_digits(n)[i]),
    decreases n,
{
    if n >= 10 {
        lemma_decimal_digits(n / 10);
    }
}

fn digit_text(digit: u64) -> (text: &'static str)
    requires
        digit < 10,
    ensures
        text@ == seq![digit_char(digit as nat)],
{
    proof {
        reveal_strlit("0");
        reveal_strlit("1");
        reveal_strlit("2");
        reveal_strlit("3");
        reveal_strlit("4");
        reveal_strlit("5");
        reveal_strlit("6");
        reveal_strlit("7");
        reveal_strlit("8");
        reveal_strlit("9");
    }
    let text = if digit == 0 {
        "0"
    } else if digit == 1 {
        "1"
    } else if digit == 2 {
        "2"
    } else if digit == 3 {
        "3"
    } else if digit == 4 {
        "4"
    } else if digit == 5 {
        "5"
    } else if digit == 6 {
        "6"
    } else if digit == 7 {
        "7"
    } else if digit == 8 {
        "8"
    } else {
        "9"
    };
    assert(text@ =~= seq![digit_char(digit as nat)]);
    text
}

/// Writes a number in decimal.
pub fn decimal_text(n: u64) -> (text: String)
    ensures
        text@ == decimal_digits(n as nat),
    decreases n,
{
    if n < 10 {
        digit_text(n).to_owned()
    } else {
        let text = decimal_text(n / 10).concat(digit_text(n % 10));
        assert(text@ =~= decimal_digits(n as nat));
        text
    }
}

/// The stem of a file name: the whole name where it holds no dot or only a
/// leading one, else what stands before its last dot.
pub open spec fn stem_of(name: Seq<char>) -> Seq<char> {
    match name.index_of_last('.') {
        Some(dot) => if dot > 0 {
            name.subrange(0, dot)
        } else {
            name
        },
        None => name,
    }
}

/// The extension of a file name: what follows its last dot, and nothing
/// where the name holds no dot or only a leading one.
pub open spec fn extension_of(name: Seq<char>) -> Option<Seq<char>> {
    match name.index_of_last('.') {
        Some(dot) => if dot > 0 {
            Some(name.subrange(dot + 1, name.len() as int))
        } else {
            None
        },
        None => None,
    }
}

/// The extension that a backup's name ends in: empty where the file has none.
pub open spec fn extension_or_empty(name: Seq<char>) -> Seq<char> {
    match extension_of(name) {
        Some(extension) => extension,
        None => Seq::empty(),
    }
}

/// The file name of the backup made of the file `name` at `unix_seconds`.
pub open spec fn backup_name_of(name: Seq<char>, unix_seconds: nat) -> Seq<char> {
    stem_of(name) + "_backup_"@ + decimal_digits(unix_seconds) + "."@ + extension_or_empty(name)
}

/// The position of the last dot in `name`, counted in characters.
pub fn last_dot(name: &str) -> (position: Option<usize>)
    ensures
        match position {
            Some(dot) => name@.index_of_last('.') == Some(dot as int),
            None => name@.index_of_last('.') is None,
        },
{
    let len: usize = name.unicode_len();
    let mut i: usize = len;
    while i > 0
        invariant
            i <= len,
            len == name@.len(),
            forall|j: int| i <= j < len ==> name@[j] != '.',
        decreases i,
    {
        if name.get_char(i - 1) == '.' {
            proof {
                name@.index_of_last_ensures('.');
                assert(name@.contains('.'));
            }
            return Some(i - 1);
        }
        i = i - 1;
    }
    proof {
        name@.index_of_last_ensures('.');
    }
    None
}

/// Splits a file name into its stem and its extension.
pub fn split_extension(name: &str) -> (parts: (String, Option<String>))
    ensures
        parts.0@ == stem_of(name@),
        text_of(parts.1) == extension_of(name@),
{
    match last_dot(name) {
        Some(dot) => {
            proof {
                name@.index_of_last_ensures('.');
            }
            if dot > 0 {
                let len: usize = name.unicode_len();
                let stem = name.substring_char(0, dot).to_owned();
                let extension = name.substring_char(dot + 1, len).to_owned();
                (stem, Some(extension))
            } else {
                (name.to_owned(), None)
            }
        },
        None => (name.to_owned(), None),
    }
}

/// The file name of the backup made of the file `name` at `unix_seconds`:
/// the stem, `_backup_`, the seconds in decimal, a dot and the extension.
pub fn backup_file_name(name: &str, unix_seconds: u64) -> (backup: String)
    ensures
        backup@ == backup_name_of(name@, unix_seconds as nat),
{
    let (stem, extension) = split_extension(name);
    let seconds = decimal_text(unix_seconds);
    let backup = stem.concat("_backup_").concat(seconds.as_str()).concat(".");
    match extension {
        Some(extension) => backup.concat(extension.as_str()),
        None => {
            assert(backup@ + Seq::<char>::empty() =~= backup@);
            backup
        },
    }
}

/// The reading of the clock as contracts see it: seconds since the epoch, or
/// the message given in their place.
pub open spec fn clock_of(now: Result<u64, String>) -> Result<nat, Seq<char>> {
    match now {
        Ok(seconds) => Ok(seconds as nat),
        Err(message) => Err(message@),
    }
}

/// Where the backup of `db_path` goes: into the directory of the file, under
/// the backup's name. The path must have a parent directory and a file name,
/// and the clock a reading, asked for in this order.
pub open spec fn backup_destination_of(db_path: Seq<char>, now: Result<nat, Seq<char>>) -> Result<
    Seq<char>,
    LocationErrorView,
> {
    match parent_of(db_path) {
        None => Err(bare_failure(ErrorKind::NoParentDirectory)),
        Some(parent) => match file_name_of(db_path) {
            None => Err(bare_failure(ErrorKind::NoFileName)),
            Some(name) => match now {
                Err(message) => Err(failure(ErrorKind::Timestamp, message)),
                Ok(seconds) => Ok(joined_path(parent, backup_name_of(name, seconds))),
            },
        },
    }
}

/// The plan of a backup of `db_path`: refused where the file does not exist or
/// the backup has no destination, else the one copy, answered with the path of
/// the backup.
pub open spec fn backup_plan_of(
    db_path: Seq<char>,
    exists: bool,
    now: Result<nat, Seq<char>>,
) -> MigrationPlanView {
    if !exists {
        refusal(bare_failure(ErrorKind::DatabaseMissing))
    } else {
        match backup_destination_of(db_path, now) {
            Err(error) => refusal(error),
            Ok(destination) => MigrationPlanView {
                steps: seq![FileStepView::CopyBackup { from: db_path, to: destination }],
                outcome: Ok(destination),
            },
        }
    }
}

/// Computes where the backup of `db_path` goes when made at the reading `now`
/// of the clock.
pub fn backup_destination(db_path: &str, now: &Result<u64, String>) -> (destination: Result<
    String,
    LocationError,
>)
    ensures
        outcome_of(destination) == backup_destination_of(db_path@, clock_of(*now)),
{
    let parent = match parent_path(db_path) {
        Some(parent) => parent,
        None => {
            return Err(LocationError::bare(ErrorKind::NoParentDirectory));
        },
    };
    let name = match file_name(db_path) {
        Some(name) => name,
        None => {
            return Err(LocationError::bare(ErrorKind::NoFileName));
        },
    };
    match now {
        Err(message) => Err(LocationError::new(ErrorKind::Timestamp, message.as_str())),
        Ok(seconds) => {
            let backup = backup_file_name(name.as_str(), *seconds);
            Ok(join_path(parent.as_str(), backup.as_str()))
        },
    }
}

/// Plans the backup of the file `db_path`. `exists` says whether the file is
/// there, `now` is the reading of the clock in seconds since the epoch, or
/// the message of the failed reading.
pub fn create_database_backup(db_path: &str, exists: bool, now: &Result<u64, String>) -> (plan:
    MigrationPlan)
    ensures
        plan@ == backup_plan_of(db_path@, exists, clock_of(*now)),
{
    if !exists {
        return MigrationPlan::refuse(LocationError::bare(ErrorKind::DatabaseMissing));
    }
    match backup_destination(db_path, now) {
        Err(error) => MigrationPlan::refuse(error),
        Ok(destination) => {
            let mut steps: Vec<FileStep> = Vec::new();
            steps.push(FileStep::CopyBackup { from: db_path.to_owned(), to: destination.clone() });
            let plan = MigrationPlan { steps, outcome: Ok(destination) };
            assert(plan@.steps =~= seq![
                FileStepView::CopyBackup { from: db_path@, to: destination@ },
            ]);
            plan
        },
    }
}

/// A backup that is made lies in the directory of the file it saves and is
/// named by that file's stem, `_backup_`, a number written in decimal digits,
/// a dot and that file's extension; the plan copies the file there and
/// answers with that path.
pub proof fn lemma_backup_beside_its_file(
    db_path: Seq<char>,
    parent: Seq<char>,
    name: Seq<char>,
    seconds: nat,
)
    requires
        parent_of(db_path) == Some(parent),
        file_name_of(db_path) == Some(name),
    ensures
        ({
            let digits = decimal_digits(seconds);
            let destination = joined_path(
                parent,
                stem_of(name) + "_backup_"@ + digits + "."@ + extension_or_empty(name),
            );
            &&& digits.len() >= 1
            &&& forall|i: int| 0 <= i < digits.len() ==> is_decimal_digit(digits[i])
            &&& backup_plan_of(db_path, true, Ok(seconds)).steps == seq![
                FileStepView::CopyBackup { from: db_path, to: destination },
            ]
            &&& backup_plan_of(db_path, true, Ok(seconds)).outcome == Ok::<
                Seq<char>,
                LocationErrorView,
            >(destination)
        }),
{
    lemma_decimal_digits(seconds);
}

} // verus!
