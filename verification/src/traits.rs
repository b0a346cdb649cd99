//! Convenient methods for WebDriver capabilities.
use crate::command::json_str;
use crate::json::{Json, JsonMap};
use crate::wd::Capabilities;
use vstd::prelude::*;

verus! {

/// `j` is the browser options object `{"args": args}`.
pub open spec fn options_with_args(j: Json, args: Seq<Seq<char>>) -> bool {
    &&& j matches Json::Object(o)
    &&& o.as_map().dom() == set!["args"@]
    &&& o.as_map()["args"@] matches Json::Array(v)
    &&& v@.len() == args.len()
    &&& forall|i: int| 0 <= i < args.len() ==> json_str(#[trigger] v@[i], args[i])
}

/// `after` is `before` with the entry under `key` replaced by the options `{"args": args}`.
pub open spec fn sets_options(
    before: Map<Seq<char>, Json>,
    after: Map<Seq<char>, Json>,
    key: Seq<char>,
    args: Seq<Seq<char>>,
) -> bool {
    &&& after.dom() == before.dom().insert(key)
    &&& forall|k: Seq<char>| k != key && #[trigger] before.contains_key(k) ==> after[k] == before[k]
    &&& options_with_args(after[key], args)
}

/// The browser options `{"args": args}`.
pub fn options(args: Vec<&str>) -> (j: Json)
    ensures
        options_with_args(j, args@.map_values(|a: &str| a@)),
{
    let mut v: Vec<Json> = Vec::new();
    let mut i: usize = 0;
    while i < args.len()
        invariant
            i <= args.len(),
            v@.len() == i,
            forall|k: int| 0 <= k < i ==> json_str(#[trigger] v@[k], args@[k]@),
        decreases args.len() - i,
    {
        v.push(Json::String(args[i].to_owned()));
        i = i + 1;
    }
    let mut o = JsonMap::new();
    o.insert("args".to_owned(), Json::Array(v));
    proof {
        assert(o.as_map().dom() =~= set!["args"@]);
    }
    Json::Object(o)
}

/// Convenient methods for webdriver capabilities
pub trait CapabilitiesExt: Sized {
    /// Run the geckodriver headless
    fn headless_firefox(self) -> Self;

    /// Run chrome headless
    fn headless_chrome(self) -> Self;
}

impl CapabilitiesExt for Capabilities {
    /// Sets `moz:firefoxOptions` to `{"args": ["-headless"]}`.
    fn headless_firefox(self) -> (r: Self)
        ensures
            sets_options(self.as_map(), r.as_map(), "moz:firefoxOptions"@, seq!["-headless"@]),
    {
        let args = vec!["-headless"];
        proof {
            assert(args@.map_values(|a: &str| a@) =~= seq!["-headless"@]);
        }
        let mut caps = self;
        caps.insert("moz:firefoxOptions".to_owned(), options(args));
        caps
    }

    /// Sets `goog:chromeOptions` to `{"args": ["-headless"]}`.
    fn headless_chrome(self) -> (r: Self)
        ensures
            sets_options(self.as_map(), r.as_map(), "goog:chromeOptions"@, seq!["-headless"@]),
    {
        let args = vec!["-headless"];
        proof {
            assert(args@.map_values(|a: &str| a@) =~= seq!["-headless"@]);
        }
        let mut caps = self;
        caps.insert("goog:chromeOptions".to_owned(), options(args));
        caps
    }
}

} // verus!
