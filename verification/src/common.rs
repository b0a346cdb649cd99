//! Settings shared by the test suites: where each browser's WebDriver listens, and how it is
//! started.
use crate::json::JsonMap;
use crate::text::str_eq;
use crate::traits::{options, options_with_args};
use crate::wd::Capabilities;
use vstd::prelude::*;

verus! {

/// The browsers that the test suites know.
pub open spec fn known_browser(browser: Seq<char>) -> bool {
    browser == "firefox"@ || browser == "chrome"@
}

/// The address of the WebDriver of a known browser.
pub open spec fn webdriver_url(browser: Seq<char>) -> Seq<char> {
    if browser == "firefox"@ {
        "http://localhost:4444"@
    } else {
        "http://localhost:9515"@
    }
}

/// makes capabilities for the given browser
pub fn make_capabilities(browser: &str) -> (caps: Capabilities)
    requires
        known_browser(browser@),
    ensures
        browser@ == "firefox"@ ==> caps.as_map().dom() == set!["moz:firefoxOptions"@]
            && options_with_args(caps.as_map()["moz:firefoxOptions"@], seq!["--headless"@]),
        browser@ == "chrome"@ ==> caps.as_map().dom() == set!["goog:chromeOptions"@]
            && options_with_args(
            caps.as_map()["goog:chromeOptions"@],
            seq![
                "--headless"@,
                "--disable-gpu"@,
                "--no-sandbox"@,
                "--disable-dev-shm-usage"@,
            ],
        ),
{
    proof {
        reveal_strlit("firefox");
        reveal_strlit("chrome");
        assert("firefox"@.len() != "chrome"@.len());
    }
    let mut caps = JsonMap::new();
    if str_eq(browser, "firefox") {
        let args = vec!["--headless"];
        proof {
            assert(args@.map_values(|a: &str| a@) =~= seq!["--headless"@]);
        }
        caps.insert("moz:firefoxOptions".to_owned(), options(args));
        proof {
            assert(caps.as_map().dom() =~= set!["moz:firefoxOptions"@]);
        }
    } else {
        let args = vec!["--headless", "--disable-gpu", "--no-sandbox", "--disable-dev-shm-usage"];
        proof {
            assert(args@.map_values(|a: &str| a@) =~= seq![
                "--headless"@,
                "--disable-gpu"@,
                "--no-sandbox"@,
                "--disable-dev-shm-usage"@,
            ]);
        }
        caps.insert("goog:chromeOptions".to_owned(), options(args));
        proof {
            assert(caps.as_map().dom() =~= set!["goog:chromeOptions"@]);
        }
    }
    caps
}

/// generates a webdriver url for the given browser
pub fn make_url(browser: &str) -> (url: &'static str)
    requires
        known_browser(browser@),
    ensures
        url@ == webdriver_url(browser@),
{
    if str_eq(browser, "firefox") {
        "http://localhost:4444"
    } else {
        "http://localhost:9515"
    }
}

} // verus!
