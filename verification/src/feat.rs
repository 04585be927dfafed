//! Changes to the configuration as one transaction, and the upkeep of the
//! upload directory.
//!
//! A patch is merged into the draft; what it entails is worked out and
//! carried out by the caller; then the draft is applied, if all went well,
//! or discarded, if anything failed. Readers of the committed document see
//! the change after the apply and never before.

use chrono::{Datelike, NaiveDate};
use vstd::prelude::*;
use crate::draft::Draft;
use crate::synclan::{Document, ISynclan};
use crate::text::owned;

verus! {

/// Nothing is entailed.
pub const UPDATE_NONE: i32 = 0;

/// The listener has to be restarted.
pub const UPDATE_RESTART_HTTP_SERVER: i32 = 1;

/// The document has to be written out.
pub const UPDATE_SYNCLAN_CONFIG: i32 = 2;

/// What a patch entails for a store whose latest document is `latest`, as
/// flags: a patch that changes the encryption flag entails a restart of the
/// listener. A patch that carries the flag with the value that the latest
/// document has changes nothing, and entails nothing.
pub open spec fn update_flags(latest: Document, patch: Document) -> i32 {
    if patch.enable_encryption is Some && patch.enable_encryption != latest.enable_encryption {
        UPDATE_RESTART_HTTP_SERVER
    } else {
        UPDATE_NONE
    }
}

/// Whether the flags ask for a restart of the listener.
pub fn needs_restart(flags: i32) -> (restart: bool)
    ensures
        restart == (flags & UPDATE_RESTART_HTTP_SERVER != 0),
        flags == UPDATE_RESTART_HTTP_SERVER ==> restart,
        flags == UPDATE_NONE ==> !restart,
{
    assert(1i32 & 1i32 != 0) by (bit_vector);
    assert(0i32 & 1i32 == 0) by (bit_vector);
    (flags & UPDATE_RESTART_HTTP_SERVER) != 0
}

/// Begins a change: merges `patch` into the draft, which is made from the
/// committed document if there is none, and returns what the patch entails
/// for the document that was the latest before. The committed document is
/// untouched.
pub fn patch_config(store: &mut Draft<ISynclan>, patch: ISynclan) -> (flags: i32)
    ensures
        flags == update_flags(old(store)@.latest()@, patch@),
        final(store)@.committed == old(store)@.committed,
        final(store)@.draft is Some,
        final(store)@.draft->0@ == old(store)@.latest()@.patched(patch@),
{
    let before = store.latest_ref().enable_encryption;
    let changed = match patch.enable_encryption {
        Some(wanted) => match before {
            Some(had) => wanted != had,
            None => true,
        },
        None => false,
    };
    let flags = if changed {
        UPDATE_NONE | UPDATE_RESTART_HTTP_SERVER
    } else {
        UPDATE_NONE
    };
    assert(0i32 | 1i32 == 1i32) by (bit_vector);
    store.draft_mut().patch_config(patch);
    flags
}

/// Ends a change. If what the patch entailed went well, the draft is
/// applied and, where `need_save_file` is set, the committed document is
/// returned to be written to the file. If it failed, the draft is
/// discarded, the committed document is as it was before the change, and
/// the error is handed on.
pub fn complete_patch<E>(store: &mut Draft<ISynclan>, outcome: Result<(), E>, need_save_file: bool) -> (to_save:
    Result<Option<ISynclan>, E>)
    ensures
        match outcome {
            Ok(()) => {
                &&& final(store)@ == old(store)@.applied()
                &&& to_save == Ok::<Option<ISynclan>, E>(
                    if need_save_file {
                        Some(old(store)@.latest())
                    } else {
                        None
                    },
                )
            },
            Err(e) => {
                &&& final(store)@ == old(store)@.discarded()
                &&& to_save == Err::<Option<ISynclan>, E>(e)
            },
        },
{
    match outcome {
        Ok(()) => {
            store.apply();
            if need_save_file {
                Ok(Some(store.data_ref().clone()))
            } else {
                Ok(None)
            }
        },
        Err(e) => {
            store.discard();
            Err(e)
        },
    }
}

/// Why the upload directory is not swept.
#[derive(Clone, Copy, Debug, PartialEq, Eq, Structural)]
pub enum CleanupError {
    /// The document names no upload directory.
    NoUploadDir,
}

impl CleanupError {
    /// The error in words.
    pub fn message(&self) -> (text: String)
        ensures
            text@ == "File upload directory is not configured."@,
    {
        owned("File upload directory is not configured.")
    }
}

/// The age in days above which an upload folder is removed, for a setting
/// of `auto_file_clean`: 7, 30 or 90 days for 1, 2 or 3, and no removal for
/// anything else.
pub open spec fn retention_days(auto_file_clean: Option<i32>) -> Option<i64> {
    match auto_file_clean {
        Some(1) => Some(7),
        Some(2) => Some(30),
        Some(3) => Some(90),
        _ => None,
    }
}

/// Whether a folder of this age is due for removal under a retention of
/// `day` days: only a folder that is older goes.
pub open spec fn is_expired(age_days: i64, day: i64) -> bool {
    age_days > day
}

/// What the sweep of the upload directory is to do: where to sweep and
/// above which age, or nothing where the document switches the sweep off.
/// A document without an upload directory is an error, whatever its
/// retention.
pub fn uploaded_files_auto_cleanup(latest: &ISynclan) -> (sweep: Result<
    Option<(String, i64)>,
    CleanupError,
>)
    ensures
        latest@.file_upload_dir is None ==> sweep == Err::<Option<(String, i64)>, CleanupError>(
            CleanupError::NoUploadDir,
        ),
        latest@.file_upload_dir matches Some(dir) ==> match retention_days(latest@.auto_file_clean) {
            Some(day) => sweep matches Ok(Some(found)) && found.0@ == dir && found.1 == day,
            None => sweep matches Ok(None),
        },
{
    let dir = match &latest.file_upload_dir {
        Some(dir) => dir.clone(),
        None => {
            return Err(CleanupError::NoUploadDir);
        },
    };
    let day: i64 = match latest.auto_file_clean {
        Some(1) => 7,
        Some(2) => 30,
        Some(3) => 90,
        _ => {
            return Ok(None);
        },
    };
    Ok(Some((dir, day)))
}

/// How the folders of the upload directory are named: year, month and day
/// of the upload.
pub const FOLDER_DATE_FORMAT: &'static str = "%Y-%m-%d";

/// The day that a text names when it is read in a format: its number in
/// the proleptic Gregorian calendar, the first of January of the year 1
/// being day 1. There is none where the text is no date in that format.
pub uninterp spec fn parsed_day(text: Seq<char>, format: Seq<char>) -> Option<int>;

/// `NaiveDate::parse_from_str`, and `Datelike::num_days_from_ce` of the date
/// it gives: the number of the day that the text names in the format, or
/// nothing where the text is no date in that format.
#[verifier::external_body]
fn parse_day(text: &str, format: &str) -> (day: Option<i32>)
    ensures
        match day {
            Some(number) => parsed_day(text@, format@) == Some(number as int),
            None => parsed_day(text@, format@) is None,
        },
{
    match NaiveDate::parse_from_str(text, format) {
        Ok(date) => Some(date.num_days_from_ce()),
        Err(_) => None,
    }
}

/// The age in days of a folder named `name` on the day with the number
/// `today`: the days from the date that the name is to today. A folder
/// whose name is no date has no age.
pub open spec fn folder_age(name: Seq<char>, today: int) -> Option<int> {
    match parsed_day(name, FOLDER_DATE_FORMAT@) {
        Some(created) => Some(today - created),
        None => None,
    }
}

/// Whether an age is known and above `day` days.
pub open spec fn is_older(age: Option<int>, day: int) -> bool {
    match age {
        Some(days) => days > day,
        None => false,
    }
}

/// The age in days of a folder named `name` on the day with the number
/// `today`.
pub fn folder_age_days(name: &str, today: i32) -> (age: Option<i64>)
    ensures
        match age {
            Some(days) => folder_age(name@, today as int) == Some(days as int),
            None => folder_age(name@, today as int) is None,
        },
{
    match parse_day(name, FOLDER_DATE_FORMAT) {
        Some(created) => Some(today as i64 - created as i64),
        None => None,
    }
}

/// Whether the sweep on the day with the number `today` removes an entry
/// of the upload directory: it must be a directory that is named after a
/// date, and that date must lie more than `day` days back.
pub fn sweeps_folder(is_dir: bool, name: &str, today: i32, day: i64) -> (remove: bool)
    ensures
        remove == (is_dir && is_older(folder_age(name@, today as int), day as int)),
{
    if !is_dir {
        return false;
    }
    sweeps(is_dir, folder_age_days(name, today), day)
}

/// Whether the sweep removes a folder: it must be a directory whose name is
/// a date, `age_days` being the whole days since that date, and it must be
/// older than `day` days.
pub fn sweeps(is_dir: bool, age_days: Option<i64>, day: i64) -> (remove: bool)
    ensures
        remove == (is_dir && age_days is Some && is_expired(age_days->0, day)),
{
    match age_days {
        Some(age) => is_dir && age > day,
        None => false,
    }
}

} // verus!
