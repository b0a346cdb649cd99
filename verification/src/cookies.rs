//! Cookies as the WebDriver carries them, and the `Cookie` header made of a page's cookies.
use crate::command::json_str;
use crate::error::CmdError;
use crate::json::{Json, JsonMap, JsonNumber};
use crate::text::{str_eq, string_append};
use vstd::prelude::*;
use vstd::utf8::encode_utf8;

verus! {

/// The `SameSite` attribute of a cookie.
#[derive(Debug, Clone, Copy, PartialEq, Eq, Structural)]
pub enum SameSite {
    /// Sent with same-site requests only.
    Strict,
    /// Sent with same-site requests and top-level navigations.
    Lax,
    /// Sent with all requests: the attribute's value `None`.
    Unrestricted,
}

/// The text that `str::to_lowercase` makes of `s`.
pub uninterp spec fn lowercased(s: Seq<char>) -> Seq<char>;

/// An ASCII character in lowercase: letters `A` to `Z` become `a` to `z`, others stay.
pub open spec fn ascii_lower(c: char) -> char {
    if 'A' <= c <= 'Z' {
        ((c as u32) + 32) as char
    } else {
        c
    }
}

/// `s` holds ASCII characters only.
pub open spec fn all_ascii(s: Seq<char>) -> bool {
    forall|i: int| 0 <= i < s.len() ==> (#[trigger] s[i] as u32) < 128
}

/// Calls `str::to_lowercase`, which maps each character to its Unicode lowercase form. The
/// result is named `lowercased(s)`; of ASCII text, whose lowercase forms are the ASCII ones, it
/// is the text with its letters in lowercase.
#[verifier::external_body]
fn to_lowercase(s: &str) -> (r: String)
    ensures
        r@ == lowercased(s@),
        all_ascii(s@) ==> r@ == s@.map_values(|c: char| ascii_lower(c)),
{
    s.to_lowercase()
}

/// The `SameSite` value that a WebDriver's text names, compared without regard to case; any
/// text other than "strict" and "lax" stands for `Unrestricted` (`None` on the wire).
pub open spec fn same_site_of(s: Seq<char>) -> SameSite {
    if lowercased(s) == "strict"@ {
        SameSite::Strict
    } else if lowercased(s) == "lax"@ {
        SameSite::Lax
    } else {
        SameSite::Unrestricted
    }
}

/// The wire name of a `SameSite` value.
pub open spec fn same_site_text(s: SameSite) -> Seq<char> {
    match s {
        SameSite::Strict => "Strict"@,
        SameSite::Lax => "Lax"@,
        SameSite::Unrestricted => "None"@,
    }
}

/// The `SameSite` value that an ASCII text names, compared without regard to case.
pub open spec fn same_site_of_ascii(s: Seq<char>) -> SameSite {
    let lower = s.map_values(|c: char| ascii_lower(c));
    if lower == "strict"@ {
        SameSite::Strict
    } else if lower == "lax"@ {
        SameSite::Lax
    } else {
        SameSite::Unrestricted
    }
}

impl SameSite {
    /// The `SameSite` value that the text names.
    pub fn from_text(s: &str) -> (r: SameSite)
        ensures
            r == same_site_of(s@),
            all_ascii(s@) ==> r == same_site_of_ascii(s@),
    {
        let lower = to_lowercase(s);
        if str_eq(lower.as_str(), "strict") {
            SameSite::Strict
        } else if str_eq(lower.as_str(), "lax") {
            SameSite::Lax
        } else {
            SameSite::Unrestricted
        }
    }

    /// The wire name of this value: `"Strict"`, `"Lax"` or `"None"`.
    pub fn as_str(&self) -> (s: &'static str)
        ensures
            s@ == same_site_text(*self),
    {
        match self {
            SameSite::Strict => "Strict",
            SameSite::Lax => "Lax",
            SameSite::Unrestricted => "None",
        }
    }
}

/// A cookie as the WebDriver describes it.
///
/// See [14. Cookies](https://www.w3.org/TR/webdriver1/#cookies) of the WebDriver standard.
#[derive(Debug)]
pub struct WebDriverCookie {
    /// The name of the cookie.
    pub name: String,
    /// The value of the cookie.
    pub value: String,
    /// The cookie path.
    pub path: Option<String>,
    /// The domain the cookie is visible to.
    pub domain: Option<String>,
    /// Whether the cookie is a secure cookie.
    pub secure: Option<bool>,
    /// Whether the cookie is an HTTP only cookie.
    pub http_only: Option<bool>,
    /// When the cookie expires, in seconds since the Unix epoch.
    pub expiry: Option<u64>,
    /// Whether the cookie applies to a SameSite policy.
    pub same_site: Option<SameSite>,
}

/// The keys of the optional entries that are present.
pub open spec fn cookie_keys(c: WebDriverCookie) -> Set<Seq<char>> {
    let s0 = set!["name"@, "value"@];
    let s1 = if c.path is Some { s0.insert("path"@) } else { s0 };
    let s2 = if c.domain is Some { s1.insert("domain"@) } else { s1 };
    let s3 = if c.secure is Some { s2.insert("secure"@) } else { s2 };
    let s4 = if c.http_only is Some { s3.insert("httpOnly"@) } else { s3 };
    let s5 = if c.expiry is Some { s4.insert("expiry"@) } else { s4 };
    if c.same_site is Some { s5.insert("sameSite"@) } else { s5 }
}

/// `j` is the wire form of the cookie `c`: an object with its name and value, and each optional
/// attribute that it has.
pub open spec fn cookie_json(j: Json, c: WebDriverCookie) -> bool {
    &&& j matches Json::Object(o)
    &&& o.as_map().dom() == cookie_keys(c)
    &&& json_str(o.as_map()["name"@], c.name@)
    &&& json_str(o.as_map()["value"@], c.value@)
    &&& (c.path matches Some(p) ==> json_str(o.as_map()["path"@], p@))
    &&& (c.domain matches Some(d) ==> json_str(o.as_map()["domain"@], d@))
    &&& (c.secure matches Some(b) ==> o.as_map()["secure"@] == Json::Bool(b))
    &&& (c.http_only matches Some(b) ==> o.as_map()["httpOnly"@] == Json::Bool(b))
    &&& (c.expiry matches Some(e) ==> o.as_map()["expiry"@] == Json::Number(JsonNumber::PosInt(e)))
    &&& (c.same_site matches Some(s) ==> json_str(o.as_map()["sameSite"@], same_site_text(s)))
}

/// The keys of a cookie's wire form are pairwise distinct.
proof fn lemma_cookie_keys()
    ensures
        "name"@ != "value"@,
        "path"@ != "name"@,
        "path"@ != "value"@,
        "domain"@ != "name"@,
        "domain"@ != "value"@,
        "domain"@ != "path"@,
        "secure"@ != "name"@,
        "secure"@ != "value"@,
        "secure"@ != "path"@,
        "secure"@ != "domain"@,
        "httpOnly"@ != "name"@,
        "httpOnly"@ != "value"@,
        "httpOnly"@ != "path"@,
        "httpOnly"@ != "domain"@,
        "httpOnly"@ != "secure"@,
        "expiry"@ != "name"@,
        "expiry"@ != "value"@,
        "expiry"@ != "path"@,
        "expiry"@ != "domain"@,
        "expiry"@ != "secure"@,
        "expiry"@ != "httpOnly"@,
        "sameSite"@ != "name"@,
        "sameSite"@ != "value"@,
        "sameSite"@ != "path"@,
        "sameSite"@ != "domain"@,
        "sameSite"@ != "secure"@,
        "sameSite"@ != "httpOnly"@,
        "sameSite"@ != "expiry"@,
{
    reveal_strlit("name");
    reveal_strlit("value");
    reveal_strlit("path");
    reveal_strlit("domain");
    reveal_strlit("secure");
    reveal_strlit("httpOnly");
    reveal_strlit("expiry");
    reveal_strlit("sameSite");
    assert("name"@.len() != "value"@.len());
    assert("path"@[0] != "name"@[0]);
    assert("path"@.len() != "value"@.len());
    assert("domain"@.len() != "name"@.len());
    assert("domain"@[0] != "value"@[0]);
    assert("domain"@.len() != "path"@.len());
    assert("secure"@.len() != "name"@.len());
    assert("secure"@[0] != "value"@[0]);
    assert("secure"@.len() != "path"@.len());
    assert("secure"@[0] != "domain"@[0]);
    assert("httpOnly"@.len() != "name"@.len());
    assert("httpOnly"@.len() != "value"@.len());
    assert("httpOnly"@.len() != "path"@.len());
    assert("httpOnly"@.len() != "domain"@.len());
    assert("httpOnly"@.len() != "secure"@.len());
    assert("expiry"@.len() != "name"@.len());
    assert("expiry"@[0] != "value"@[0]);
    assert("expiry"@.len() != "path"@.len());
    assert("expiry"@[0] != "domain"@[0]);
    assert("expiry"@[0] != "secure"@[0]);
    assert("expiry"@.len() != "httpOnly"@.len());
    assert("sameSite"@.len() != "name"@.len());
    assert("sameSite"@.len() != "value"@.len());
    assert("sameSite"@.len() != "path"@.len());
    assert("sameSite"@.len() != "domain"@.len());
    assert("sameSite"@.len() != "secure"@.len());
    assert("sameSite"@[0] != "httpOnly"@[0]);
    assert("sameSite"@.len() != "expiry"@.len());
}

/// The cookie `c` as Add Cookie sends it: a cookie that does not say whether it is secure or
/// HTTP only is neither; everything else stays.
pub open spec fn add_parameters(c: WebDriverCookie) -> WebDriverCookie {
    WebDriverCookie {
        name: c.name,
        value: c.value,
        path: c.path,
        domain: c.domain,
        secure: Some(
            match c.secure {
                Some(b) => b,
                None => false,
            },
        ),
        http_only: Some(
            match c.http_only {
                Some(b) => b,
                None => false,
            },
        ),
        expiry: c.expiry,
        same_site: c.same_site,
    }
}

impl WebDriverCookie {
    /// The cookie as Add Cookie sends it: a cookie that does not say whether it is secure or
    /// HTTP only is neither.
    pub fn into_add_parameters(self) -> (c: WebDriverCookie)
        ensures
            c == add_parameters(self),
            c.name == self.name,
            c.value == self.value,
            c.path == self.path,
            c.domain == self.domain,
            c.secure == Some(match self.secure {
                Some(b) => b,
                None => false,
            }),
            c.http_only == Some(match self.http_only {
                Some(b) => b,
                None => false,
            }),
            c.expiry == self.expiry,
            c.same_site == self.same_site,
    {
        let secure = match self.secure {
            Some(b) => b,
            None => false,
        };
        let http_only = match self.http_only {
            Some(b) => b,
            None => false,
        };
        WebDriverCookie {
            name: self.name,
            value: self.value,
            path: self.path,
            domain: self.domain,
            secure: Some(secure),
            http_only: Some(http_only),
            expiry: self.expiry,
            same_site: self.same_site,
        }
    }

    /// The wire form of this cookie. Absent attributes are left out.
    pub fn to_json(self) -> (j: Json)
        ensures
            cookie_json(j, self),
    {
        let ghost c = self;
        proof {
            lemma_cookie_keys();
        }
        let mut o = JsonMap::new();
        o.insert("name".to_owned(), Json::String(self.name));
        o.insert("value".to_owned(), Json::String(self.value));
        proof {
            assert(o.as_map().dom() =~= set!["name"@, "value"@]);
        }
        let ghost m0 = o.as_map();
        match self.path {
            Some(p) => o.insert("path".to_owned(), Json::String(p)),
            None => {},
        }
        let ghost m1 = o.as_map();
        match self.domain {
            Some(d) => o.insert("domain".to_owned(), Json::String(d)),
            None => {},
        }
        let ghost m2 = o.as_map();
        match self.secure {
            Some(b) => o.insert("secure".to_owned(), Json::Bool(b)),
            None => {},
        }
        let ghost m3 = o.as_map();
        match self.http_only {
            Some(b) => o.insert("httpOnly".to_owned(), Json::Bool(b)),
            None => {},
        }
        let ghost m4 = o.as_map();
        match self.expiry {
            Some(e) => o.insert("expiry".to_owned(), Json::Number(JsonNumber::PosInt(e))),
            None => {},
        }
        let ghost m5 = o.as_map();
        match self.same_site {
            Some(s) => o.insert("sameSite".to_owned(), Json::String(s.as_str().to_owned())),
            None => {},
        }
        proof {
            assert(o.as_map().dom() =~= cookie_keys(c));
        }
        Json::Object(o)
    }
}

/// The name and value of a cookie object that carries both as strings.
pub open spec fn cookie_pair(j: Json) -> Option<(Seq<char>, Seq<char>)> {
    match j {
        Json::Object(o) => if o.as_map().contains_key("name"@) && o.as_map().contains_key(
            "value"@,
        ) && o.as_map()["name"@] is String && o.as_map()["value"@] is String {
            Some((o.as_map()["name"@]->String_0@, o.as_map()["value"@]->String_0@))
        } else {
            None
        },
        _ => None,
    }
}

/// The bytes that a cookie's percent-encoding writes as they are: printable ASCII (from `!` to
/// `~`) other than `"`, `#`, `%`, `(`, `)`, `,`, `/`, `:`, `;`, `<`, `=`, `>`, `?`, `@`, `[`,
/// the backslash, `]`, `^`, the backquote, `{`, `|` and `}`.
pub open spec fn cookie_byte_kept(b: u8) -> bool {
    &&& 0x20 < b < 0x7f
    &&& !(b == 0x22 || b == 0x23 || b == 0x25 || b == 0x28 || b == 0x29 || b == 0x2c || b == 0x2f
        || b == 0x3a || b == 0x3b || b == 0x3c || b == 0x3d || b == 0x3e || b == 0x3f || b == 0x40
        || b == 0x5b || b == 0x5c || b == 0x5d || b == 0x5e || b == 0x60 || b == 0x7b || b == 0x7c
        || b == 0x7d)
}

/// An uppercase hexadecimal digit.
pub open spec fn hex_digit(n: int) -> char {
    if n < 10 {
        ('0' as int + n) as char
    } else {
        ('A' as int + n - 10) as char
    }
}

/// The bytes `b` percent-encoded: a byte that is kept stands for itself, any other becomes `%`
/// and its two uppercase hexadecimal digits.
pub open spec fn percent_encoded(b: Seq<u8>) -> Seq<char>
    decreases b.len(),
{
    if b.len() == 0 {
        Seq::empty()
    } else {
        let x = b[0];
        let head = if cookie_byte_kept(x) {
            seq![x as char]
        } else {
            seq!['%', hex_digit(x as int / 16), hex_digit(x as int % 16)]
        };
        head + percent_encoded(b.subrange(1, b.len() as int))
    }
}

/// The text `name=value` that `cookie::Cookie::new(name, value).encoded()` displays: the UTF-8
/// bytes of the name and of the value, percent-encoded.
pub open spec fn cookie_pair_encoded(name: Seq<char>, value: Seq<char>) -> Seq<char> {
    percent_encoded(encode_utf8(name)) + "="@ + percent_encoded(encode_utf8(value))
}

/// Calls `cookie::Cookie::new` with the name and the value, and displays its `encoded()` form:
/// `name=value`, each percent-encoded with the cookie crate's set (the URL userinfo set and
/// `(`, `)`, `,`), which also encodes every byte outside ASCII.
#[verifier::external_body]
fn encode_cookie(name: &str, value: &str) -> (r: String)
    ensures
        r@ == cookie_pair_encoded(name@, value@),
{
    cookie::Cookie::new(name.to_owned(), value.to_owned()).encoded().to_string()
}

/// The parts joined, with `sep` between each two.
pub open spec fn join_with(parts: Seq<Seq<char>>, sep: Seq<char>) -> Seq<char>
    decreases parts.len(),
{
    if parts.len() == 0 {
        Seq::empty()
    } else if parts.len() == 1 {
        parts[0]
    } else {
        join_with(parts.drop_last(), sep) + sep + parts.last()
    }
}

/// The encoded `name=value` texts of the cookie objects `v`, in order.
pub open spec fn encoded_pairs(v: Seq<Json>) -> Seq<Seq<char>> {
    Seq::new(
        v.len(),
        |i: int|
            {
                let (name, value) = cookie_pair(v[i])->0;
                cookie_pair_encoded(name, value)
            },
    )
}

/// The `Cookie` header that carries the cookies of a Get All Cookies reply: each cookie's
/// encoded `name=value`, separated by `"; "`. Since the header only maps names to values, the
/// other attributes of the cookies are not looked at. A reply that is not a list of cookies with
/// string names and values is reported, whole, as non-conforming.
pub fn cookie_header(reply: Json) -> (r: Result<String, CmdError>)
    ensures
        reply matches Json::Array(v) && (forall|i: int| 0 <= i < v@.len() ==> #[trigger] cookie_pair(v@[i]) is Some)
            ==> (r matches Ok(h) && h@ == join_with(encoded_pairs(reply->Array_0@), "; "@)),
        !(reply matches Json::Array(v) && (forall|i: int| 0 <= i < v@.len() ==> #[trigger] cookie_pair(v@[i]) is Some))
            ==> r == Err::<String, CmdError>(CmdError::NotW3C(reply)),
{
    let ghost items = reply->Array_0@;
    let mut header = String::new();
    let mut all_ok = true;
    match &reply {
        Json::Array(v) => {
            let mut i: usize = 0;
            while i < v.len() && all_ok
                invariant
                    items == v@,
                    i <= v@.len(),
                    all_ok ==> forall|k: int| 0 <= k < i ==> #[trigger] cookie_pair(v@[k]) is Some,
                    all_ok ==> header@ == join_with(encoded_pairs(v@).subrange(0, i as int), "; "@),
                    !all_ok ==> exists|k: int| 0 <= k < v@.len() && #[trigger] cookie_pair(v@[k]) is None,
                decreases v@.len() - i + if all_ok {
                    1int
                } else {
                    0int
                },
            {
                let pair = match &v[i] {
                    Json::Object(o) => match (o.get("name"), o.get("value")) {
                        (Some(Json::String(n)), Some(Json::String(val))) => Some((n, val)),
                        _ => None,
                    },
                    _ => None,
                };
                match pair {
                    Some((n, val)) => {
                        let enc = encode_cookie(n.as_str(), val.as_str());
                        let ghost before = header@;
                        if i > 0 {
                            string_append(&mut header, "; ");
                        }
                        string_append(&mut header, enc.as_str());
                        proof {
                            let parts = encoded_pairs(v@);
                            assert(parts.subrange(0, i + 1).drop_last() =~= parts.subrange(
                                0,
                                i as int,
                            ));
                            assert(parts.subrange(0, i + 1).last() == enc@);
                            if i == 0 {
                                assert(before =~= Seq::<char>::empty());
                            }
                        }
                        i = i + 1;
                    },
                    None => {
                        all_ok = false;
                    },
                }
            }
            proof {
                if all_ok {
                    assert(encoded_pairs(v@).subrange(0, v@.len() as int) =~= encoded_pairs(v@));
                }
            }
        },
        _ => {
            all_ok = false;
        },
    }
    if all_ok {
        Ok(header)
    } else {
        Err(CmdError::NotW3C(reply))
    }
}

} // verus!
