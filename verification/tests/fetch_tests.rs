use rink::config::Currency;
use rink::fetch::{
    cache_write_failure_message, cached_copy_usable, check_status, currency_load_warning,
    currency_wanted, fetch_failure_message, fetched_message, is_current,
    live_currency_expiration, next_cache_step, no_cache_dir_message, no_cached_copy_message,
    refresh_failure_message, refresh_metadata_failure_message, stale_warning_message,
    user_agent, CacheAction, CacheStep,
};
use std::time::Duration;

#[test]
fn expiration_follows_fetch_on_startup() {
    let mut c = Currency::default();
    assert_eq!(live_currency_expiration(&c), Some(Duration::from_secs(3600)));
    c.fetch_on_startup = false;
    assert_eq!(live_currency_expiration(&c), None);
}

#[test]
fn freshness() {
    assert!(is_current(5, Some(5)));
    assert!(!is_current(6, Some(5)));
    assert!(is_current(u128::MAX, None));
    assert!(is_current(0, Some(0)));
}

#[test]
fn status_check() {
    assert_eq!(check_status(200, "http://x"), Ok(()));
    assert_eq!(
        check_status(404, "http://127.0.0.1:3090/data/currency.json"),
        Err("Received status 404 while downloading http://127.0.0.1:3090/data/currency.json"
            .to_owned())
    );
    assert_eq!(
        check_status(0, "u"),
        Err("Received status 0 while downloading u".to_owned())
    );
}

#[test]
fn fetched_report() {
    let m = fetched_message(6599, 12);
    assert!(m.starts_with("Fetched 6599 byte currency file after "));
    assert_eq!(m, "Fetched 6599 byte currency file after 12ms");
}

#[test]
fn messages() {
    assert_eq!(user_agent("1.2.3", "https://r"), "rink-cli 1.2.3 <https://r>");
    assert_eq!(
        stale_warning_message("http://a"),
        "Failed to refresh http://a, using stale version"
    );
    assert_eq!(fetch_failure_message("http://a"), "Failed to fetch http://a");
    assert_eq!(no_cache_dir_message(), "Could not find cache directory");
}

fn run(fetch_allowed: bool, dir: bool, usable: bool, downloaded: bool, stale: bool) -> (CacheAction, bool) {
    let mut step = CacheStep::FindCacheDir;
    let mut downloads = false;
    loop {
        let ok = match step {
            CacheStep::FindCacheDir => dir,
            CacheStep::OpenCached => usable,
            CacheStep::Download => {
                downloads = true;
                downloaded
            }
            CacheStep::OpenStale => stale,
        };
        match next_cache_step(step, ok, fetch_allowed) {
            CacheAction::Perform(next) => step = next,
            done => return (done, downloads),
        }
    }
}

#[test]
fn cache_policy() {
    assert_eq!(run(true, false, true, true, true).0, CacheAction::FailNoCacheDir);
    assert_eq!(run(true, true, true, false, false).0, CacheAction::UseCached);
    assert_eq!(run(true, true, false, true, true).0, CacheAction::UseDownload);
    assert_eq!(run(true, true, false, false, true).0, CacheAction::UseStale);
    assert_eq!(run(true, true, false, false, false).0, CacheAction::FailFetch);
}

#[test]
fn no_fetch_reuses_cache_only() {
    for dir in [false, true] {
        for usable in [false, true] {
            for downloaded in [false, true] {
                for stale in [false, true] {
                    let (action, downloads) = run(false, dir, usable, downloaded, stale);
                    assert!(!downloads);
                    let expected = if !dir {
                        CacheAction::FailNoCacheDir
                    } else if usable {
                        CacheAction::UseCached
                    } else {
                        CacheAction::FailNoCachedCopy
                    };
                    assert_eq!(action, expected);
                }
            }
        }
    }
}

#[test]
fn usable_cached_copy() {
    // Without fetching, any copy that opens is used, even one of unknown age.
    assert!(cached_copy_usable(false, true, None, None));
    assert!(cached_copy_usable(false, true, Some(10), Some(1)));
    assert!(!cached_copy_usable(false, false, Some(0), None));
    // With fetching, the copy must be current and of known age.
    assert!(cached_copy_usable(true, true, Some(1), Some(1)));
    assert!(!cached_copy_usable(true, true, Some(2), Some(1)));
    assert!(!cached_copy_usable(true, true, None, Some(1)));
    assert!(cached_copy_usable(true, true, Some(5), None));
    assert!(!cached_copy_usable(true, false, Some(1), None));
}

#[test]
fn currency_loading() {
    let mut c = Currency::default();
    assert!(currency_wanted(&c));
    c.enabled = false;
    assert!(!currency_wanted(&c));
    assert!(currency_load_warning::<&str>(Ok(())).is_none());
    let (warning, cause) = currency_load_warning(Err("no network")).unwrap();
    assert_eq!(warning, "Failed to load currency data");
    assert_eq!(cause, "no network");
}

#[test]
fn refresh_messages() {
    assert_eq!(refresh_failure_message(), "Fetching currency data failed");
    assert_eq!(
        refresh_metadata_failure_message(),
        "Fetched currency file, but failed to read file metadata"
    );
    assert_eq!(cache_write_failure_message(), "Failed to write to cache dir");
    assert_eq!(
        no_cached_copy_message("http://a"),
        "No cached copy of http://a, and fetching on startup is disabled"
    );
}
