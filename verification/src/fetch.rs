//! Live currency data: how long a cached copy stays current, when a cached,
//! fresh or stale copy is used, and the messages about a download.

use crate::config::Currency;
use crate::text::{decimal, write_decimal};
use core::time::Duration;
use vstd::prelude::*;
use vstd::string::*;

verus! {

/// How long a cached copy of the currency data stays current: the cache
/// duration when data is fetched on startup, and forever otherwise.
pub fn live_currency_expiration(config: &Currency) -> (expiration: Option<Duration>)
    ensures
        expiration == if config.fetch_on_startup {
            Some(config.cache_duration)
        } else {
            None
        },
{
    if config.fetch_on_startup {
        Some(config.cache_duration)
    } else {
        None
    }
}

/// Whether a file last modified `elapsed_nanos` nanoseconds ago is still
/// current when it expires after `expiration_nanos` nanoseconds (or never,
/// when there is no expiration).
pub open spec fn fresh(elapsed_nanos: u128, expiration_nanos: Option<u128>) -> bool {
    match expiration_nanos {
        Some(expiration) => elapsed_nanos <= expiration,
        None => true,
    }
}

/// Whether a cached file, last modified `elapsed_nanos` nanoseconds ago, is
/// still current when it expires after `expiration_nanos` nanoseconds (or
/// never, when there is no expiration).
pub fn is_current(elapsed_nanos: u128, expiration_nanos: Option<u128>) -> (current: bool)
    ensures
        current == fresh(elapsed_nanos, expiration_nanos),
{
    match expiration_nanos {
        Some(expiration) => !(elapsed_nanos > expiration),
        None => true,
    }
}

/// Whether the cached copy may be used as it is. When fetching is not
/// allowed, any copy that opens is used, whatever its age (even one whose
/// modification time lies in the future); otherwise it must be current, and
/// a copy whose age cannot be told (`elapsed_nanos` is `None`) is not.
pub open spec fn usable_copy(
    fetch_allowed: bool,
    opened: bool,
    elapsed_nanos: Option<u128>,
    expiration_nanos: Option<u128>,
) -> bool {
    opened && (!fetch_allowed || match elapsed_nanos {
        Some(elapsed) => fresh(elapsed, expiration_nanos),
        None => false,
    })
}

/// Decides whether the cached copy may be used as it is; see `usable_copy`.
pub fn cached_copy_usable(
    fetch_allowed: bool,
    opened: bool,
    elapsed_nanos: Option<u128>,
    expiration_nanos: Option<u128>,
) -> (usable: bool)
    ensures
        usable == usable_copy(fetch_allowed, opened, elapsed_nanos, expiration_nanos),
{
    if !opened {
        false
    } else if !fetch_allowed {
        true
    } else {
        match elapsed_nanos {
            Some(elapsed) => is_current(elapsed, expiration_nanos),
            None => false,
        }
    }
}

/// The message for a download answered with HTTP status `status`.
pub open spec fn bad_status_message(status: u32, url: Seq<char>) -> Seq<char> {
    "Received status "@ + decimal(status as nat) + " while downloading "@ + url
}

/// Accepts a download answered with HTTP status 200 and refuses any other.
pub fn check_status(status: u32, url: &str) -> (r: Result<(), String>)
    ensures
        r is Ok <==> status == 200,
        r matches Err(message) ==> message@ == bad_status_message(status, url@),
{
    if status != 200 {
        let mut message = String::new();
        message.append("Received status ");
        write_decimal(&mut message, status as u128);
        message.append(" while downloading ");
        message.append(url);
        Err(message)
    } else {
        Ok(())
    }
}

/// The report of a forced refresh that fetched `len` bytes in `millis`
/// milliseconds.
pub open spec fn fetched_report(len: u64, millis: u128) -> Seq<char> {
    "Fetched "@ + decimal(len as nat) + " byte currency file after "@ + decimal(millis as nat)
        + "ms"@
}

/// Reports a forced refresh of the currency data.
pub fn fetched_message(len: u64, millis: u128) -> (message: String)
    ensures
        message@ == fetched_report(len, millis),
{
    let mut message = String::new();
    message.append("Fetched ");
    write_decimal(&mut message, len as u128);
    message.append(" byte currency file after ");
    write_decimal(&mut message, millis);
    message.append("ms");
    message
}

/// The user agent sent with downloads, naming the program's version and
/// repository.
pub fn user_agent(version: &str, repository: &str) -> (agent: String)
    ensures
        agent@ == "rink-cli "@ + version@ + " <"@ + repository@ + ">"@,
{
    let mut agent = String::new();
    agent.append("rink-cli ");
    agent.append(version);
    agent.append(" <");
    agent.append(repository);
    agent.append(">");
    agent
}

/// The steps of fetching a cached file.
#[derive(Clone, Copy, PartialEq, Eq, Debug)]
pub enum CacheStep {
    /// Find the cache directory.
    FindCacheDir,
    /// Open the cached copy and check that it may be used as it is.
    OpenCached,
    /// Download a fresh copy into the cache.
    Download,
    /// Open the cached copy, stale or not, after a failed download.
    OpenStale,
}

/// What to do after a step of fetching a cached file.
#[derive(Clone, Copy, PartialEq, Eq, Debug)]
pub enum CacheAction {
    /// Go on with this step.
    Perform(CacheStep),
    /// Use the cached copy as it is.
    UseCached,
    /// Use the copy just downloaded.
    UseDownload,
    /// Use the stale cached copy, and show the download's error under the
    /// warning `stale_warning_message` gives.
    UseStale,
    /// Fail, since there is no cache directory.
    FailNoCacheDir,
    /// Fail with the message `fetch_failure_message` gives, above the
    /// download's error.
    FailFetch,
    /// Fail with the message `no_cached_copy_message` gives: there is no
    /// cached copy, and fetching is not allowed.
    FailNoCachedCopy,
}

/// What follows `step`, given whether the step succeeded and whether
/// fetching is allowed: for `OpenCached`, success means that the cached copy
/// opened and may be used as it is (`usable_copy`).
pub open spec fn next_cache_action(step: CacheStep, succeeded: bool, fetch_allowed: bool) -> CacheAction {
    match step {
        CacheStep::FindCacheDir => if succeeded {
            CacheAction::Perform(CacheStep::OpenCached)
        } else {
            CacheAction::FailNoCacheDir
        },
        CacheStep::OpenCached => if succeeded {
            CacheAction::UseCached
        } else if fetch_allowed {
            CacheAction::Perform(CacheStep::Download)
        } else {
            CacheAction::FailNoCachedCopy
        },
        CacheStep::Download => if succeeded {
            CacheAction::UseDownload
        } else {
            CacheAction::Perform(CacheStep::OpenStale)
        },
        CacheStep::OpenStale => if succeeded {
            CacheAction::UseStale
        } else {
            CacheAction::FailFetch
        },
    }
}

/// Decides what follows a step of fetching a cached file. The fetch starts
/// with `FindCacheDir`; a cached copy that may be used as it is is used;
/// otherwise, when fetching is allowed, a fresh copy is downloaded, and if
/// the download fails a stale cached copy is used; failing that, the fetch
/// fails. When fetching is not allowed, nothing is ever downloaded.
pub fn next_cache_step(step: CacheStep, succeeded: bool, fetch_allowed: bool) -> (action: CacheAction)
    ensures
        action == next_cache_action(step, succeeded, fetch_allowed),
{
    match step {
        CacheStep::FindCacheDir => if succeeded {
            CacheAction::Perform(CacheStep::OpenCached)
        } else {
            CacheAction::FailNoCacheDir
        },
        CacheStep::OpenCached => if succeeded {
            CacheAction::UseCached
        } else if fetch_allowed {
            CacheAction::Perform(CacheStep::Download)
        } else {
            CacheAction::FailNoCachedCopy
        },
        CacheStep::Download => if succeeded {
            CacheAction::UseDownload
        } else {
            CacheAction::Perform(CacheStep::OpenStale)
        },
        CacheStep::OpenStale => if succeeded {
            CacheAction::UseStale
        } else {
            CacheAction::FailFetch
        },
    }
}

/// Whether a fetch ever performs the `Download` step, given whether fetching
/// is allowed, whether the cache directory exists and whether the cached
/// copy may be used as it is.
pub open spec fn cache_run_downloads(fetch_allowed: bool, dir_found: bool, usable: bool) -> bool {
    &&& next_cache_action(CacheStep::FindCacheDir, dir_found, fetch_allowed) == CacheAction::Perform(
        CacheStep::OpenCached,
    )
    &&& next_cache_action(CacheStep::OpenCached, usable, fetch_allowed) == CacheAction::Perform(
        CacheStep::Download,
    )
}

/// What a whole fetch ends with, given whether fetching is allowed and the
/// facts it finds along the way: whether the cache directory exists,
/// whether the cached copy may be used as it is, whether the download
/// succeeds, and whether a cached copy opens after it.
pub open spec fn cache_run(
    fetch_allowed: bool,
    dir_found: bool,
    usable: bool,
    downloaded: bool,
    stale_found: bool,
) -> CacheAction {
    let a1 = next_cache_action(CacheStep::FindCacheDir, dir_found, fetch_allowed);
    if a1 != CacheAction::Perform(CacheStep::OpenCached) {
        a1
    } else {
        let a2 = next_cache_action(CacheStep::OpenCached, usable, fetch_allowed);
        if a2 != CacheAction::Perform(CacheStep::Download) {
            a2
        } else {
            let a3 = next_cache_action(CacheStep::Download, downloaded, fetch_allowed);
            if a3 != CacheAction::Perform(CacheStep::OpenStale) {
                a3
            } else {
                next_cache_action(CacheStep::OpenStale, stale_found, fetch_allowed)
            }
        }
    }
}

/// The caching policy when fetching is allowed: a cached copy that is
/// current is used; otherwise a fresh copy is downloaded and used; if that
/// fails, a stale cached copy is used if one exists; only when none of
/// these can be had does the fetch fail. A stale copy is never used while a
/// download succeeds.
pub proof fn lemma_cache_policy(dir_found: bool, usable: bool, downloaded: bool, stale_found: bool)
    ensures
        cache_run(true, dir_found, usable, downloaded, stale_found) == if !dir_found {
            CacheAction::FailNoCacheDir
        } else if usable {
            CacheAction::UseCached
        } else if downloaded {
            CacheAction::UseDownload
        } else if stale_found {
            CacheAction::UseStale
        } else {
            CacheAction::FailFetch
        },
{
}

/// When fetching is not allowed, only the existing cached copy is reused:
/// no run ever downloads, a cached copy that opens is used whatever its age,
/// and without one the fetch fails.
pub proof fn lemma_no_fetch_reuses_cache(
    dir_found: bool,
    opened: bool,
    elapsed_nanos: Option<u128>,
    expiration_nanos: Option<u128>,
    downloaded: bool,
    stale_found: bool,
)
    ensures
        !cache_run_downloads(
            false,
            dir_found,
            usable_copy(false, opened, elapsed_nanos, expiration_nanos),
        ),
        cache_run(
            false,
            dir_found,
            usable_copy(false, opened, elapsed_nanos, expiration_nanos),
            downloaded,
            stale_found,
        ) == if !dir_found {
            CacheAction::FailNoCacheDir
        } else if opened {
            CacheAction::UseCached
        } else {
            CacheAction::FailNoCachedCopy
        },
{
}

/// The message when there is no cached copy of `url` and fetching is not
/// allowed.
pub open spec fn no_cached_copy(url: Seq<char>) -> Seq<char> {
    "No cached copy of "@ + url + ", and fetching on startup is disabled"@
}

/// The message when there is no cached copy of `url` and fetching is not
/// allowed.
pub fn no_cached_copy_message(url: &str) -> (message: String)
    ensures
        message@ == no_cached_copy(url@),
{
    let mut message = String::new();
    message.append("No cached copy of ");
    message.append(url);
    message.append(", and fetching on startup is disabled");
    message
}

/// The warning shown when a stale copy of `url` is used.
pub open spec fn stale_warning(url: Seq<char>) -> Seq<char> {
    "Failed to refresh "@ + url + ", using stale version"@
}

/// The warning shown when a stale copy of `url` is used.
pub fn stale_warning_message(url: &str) -> (message: String)
    ensures
        message@ == stale_warning(url@),
{
    let mut message = String::new();
    message.append("Failed to refresh ");
    message.append(url);
    message.append(", using stale version");
    message
}

/// The message when no copy of `url` can be had.
pub open spec fn fetch_failure(url: Seq<char>) -> Seq<char> {
    "Failed to fetch "@ + url
}

/// The message when no copy of `url` can be had.
pub fn fetch_failure_message(url: &str) -> (message: String)
    ensures
        message@ == fetch_failure(url@),
{
    let mut message = String::new();
    message.append("Failed to fetch ");
    message.append(url);
    message
}

/// The message when there is no cache directory.
pub fn no_cache_dir_message() -> (message: String)
    ensures
        message@ == "Could not find cache directory"@,
{
    let mut message = String::new();
    message.append("Could not find cache directory");
    message
}

} // verus!

verus! {

/// Whether currency data is loaded at all: only when the currency section
/// is enabled. A disabled section loads nothing, neither cached nor live
/// data.
pub fn currency_wanted(config: &Currency) -> (wanted: bool)
    ensures
        wanted == config.enabled,
{
    config.enabled
}

/// What a currency load that ended with `outcome` leaves behind: nothing
/// when it succeeded; otherwise a warning headed "Failed to load currency
/// data" above the cause, and the calculator goes on without currency data.
pub fn currency_load_warning<E>(outcome: Result<(), E>) -> (warning: Option<(String, E)>)
    ensures
        match outcome {
            Ok(()) => warning is None,
            Err(cause) => warning matches Some((message, c)) && c == cause && message@
                == "Failed to load currency data"@,
        },
{
    match outcome {
        Ok(()) => None,
        Err(cause) => {
            let mut message = String::new();
            message.append("Failed to load currency data");
            Some((message, cause))
        },
    }
}

/// The message above the cause when a forced refresh cannot download the
/// currency data.
pub fn refresh_failure_message() -> (message: String)
    ensures
        message@ == "Fetching currency data failed"@,
{
    let mut message = String::new();
    message.append("Fetching currency data failed");
    message
}

/// The message above the cause when a forced refresh downloaded the
/// currency data but cannot tell its size.
pub fn refresh_metadata_failure_message() -> (message: String)
    ensures
        message@ == "Fetched currency file, but failed to read file metadata"@,
{
    let mut message = String::new();
    message.append("Fetched currency file, but failed to read file metadata");
    message
}

/// The message above the cause when a downloaded file cannot be moved into
/// the cache.
pub fn cache_write_failure_message() -> (message: String)
    ensures
        message@ == "Failed to write to cache dir"@,
{
    let mut message = String::new();
    message.append("Failed to write to cache dir");
    message
}

} // verus!

verus! {

/// With an expiration, a cached copy is current exactly when its age is at
/// most the expiration, over the full range of ages and expirations; without
/// one, every age is current. So a copy ten minutes old is current under
/// the default one-hour cache duration.
pub proof fn lemma_fresh_is_age_within_expiration(elapsed_nanos: u128, expiration_nanos: u128)
    ensures
        fresh(elapsed_nanos, Some(expiration_nanos)) <==> elapsed_nanos as int
            <= expiration_nanos as int,
        fresh(elapsed_nanos, None),
        fresh(0, Some(expiration_nanos)),
        fresh(expiration_nanos, Some(expiration_nanos)),
        expiration_nanos < u128::MAX ==> !fresh((expiration_nanos + 1) as u128, Some(expiration_nanos)),
{
}

/// When fetching is allowed, a cached copy that opens and whose known age is
/// within the expiration is used as it is, and one older than the
/// expiration is not.
pub proof fn lemma_current_copy_is_usable(elapsed_nanos: u128, expiration_nanos: u128)
    ensures
        elapsed_nanos <= expiration_nanos ==> usable_copy(
            true,
            true,
            Some(elapsed_nanos),
            Some(expiration_nanos),
        ),
        elapsed_nanos > expiration_nanos ==> !usable_copy(
            true,
            true,
            Some(elapsed_nanos),
            Some(expiration_nanos),
        ),
        usable_copy(true, true, Some(elapsed_nanos), None),
{
}

} // verus!
