//! Types used to represent particular elements on a page.
use crate::error::CmdError;
use crate::json::{Json, JsonMap};
use crate::text::str_eq;
use vstd::prelude::*;

verus! {

/// The key under which the W3C protocol carries a web element reference.
pub const ELEMENT_KEY: &'static str = "element-6066-11e4-a52e-4f735466cecf";

/// The key under which the legacy protocol carries a web element reference.
pub const LEGACY_ELEMENT_KEY: &'static str = "ELEMENT";

/// The key that carries element references in the given protocol.
pub open spec fn element_key(legacy: bool) -> Seq<char> {
    if legacy {
        LEGACY_ELEMENT_KEY@
    } else {
        ELEMENT_KEY@
    }
}

/// Web element reference.
///
/// > Each element has an associated web element reference that uniquely identifies the element
/// > across all browsing contexts. The web element reference for every element representing the
/// > same element must be the same. It must be a string, and should be the result of generating
/// > a UUID.
///
/// See [11. Elements](https://www.w3.org/TR/webdriver1/#elements) of the WebDriver standard.
#[derive(Debug, Clone, Eq, PartialEq, Hash, Ord, PartialOrd)]
pub struct ElementRef(String);

impl View for ElementRef {
    type V = Seq<char>;

    closed spec fn view(&self) -> Seq<char> {
        self.0@
    }
}

impl ElementRef {
    /// The reference held in the given string.
    pub fn new(s: String) -> (e: ElementRef)
        ensures
            e@ == s@,
    {
        ElementRef(s)
    }

    /// The reference as a string.
    pub fn as_str(&self) -> (s: &str)
        ensures
            s@ == self@,
    {
        self.0.as_str()
    }

    /// Gives back the string of this reference.
    pub fn into_string(self) -> (s: String)
        ensures
            s@ == self@,
    {
        self.0
    }

    /// The JSON form of this reference in the W3C protocol: an object with one entry under
    /// [`ELEMENT_KEY`].
    pub fn to_json(self) -> (j: Json)
        ensures
            is_element_json(j, self@, false),
    {
        let mut m = JsonMap::new();
        m.insert(ELEMENT_KEY.to_owned(), Json::String(self.0));
        Json::Object(m)
    }
}

impl From<String> for ElementRef {
    fn from(s: String) -> (e: ElementRef)
        ensures
            e@ == s@,
    {
        ElementRef(s)
    }
}

/// The reference is known by its characters only, so the conversion states its result in its
/// own `ensures`.
impl vstd::std_specs::convert::FromSpecImpl<String> for ElementRef {
    open spec fn obeys_from_spec() -> bool {
        false
    }

    open spec fn from_spec(s: String) -> ElementRef {
        arbitrary()
    }
}

impl From<ElementRef> for String {
    fn from(e: ElementRef) -> (s: String)
        ensures
            s@ == e@,
    {
        e.0
    }
}

/// The string is known by its characters only, so the conversion states its result in its own
/// `ensures`.
impl vstd::std_specs::convert::FromSpecImpl<ElementRef> for String {
    open spec fn obeys_from_spec() -> bool {
        false
    }

    open spec fn from_spec(e: ElementRef) -> String {
        arbitrary()
    }
}

/// `j` is an object with exactly one entry, the element reference `id` under the key of the
/// given protocol.
pub open spec fn is_element_json(j: Json, id: Seq<char>, legacy: bool) -> bool {
    &&& j matches Json::Object(m)
    &&& m.as_map().dom() == set![element_key(legacy)]
    &&& m.as_map()[element_key(legacy)] matches Json::String(s)
    &&& s@ == id
}

/// The element reference that a lookup response carries, if it conforms: an object that holds
/// a string under the key of the protocol in use.
pub open spec fn lookup_result(j: Json, legacy: bool) -> Option<Seq<char>> {
    match j {
        Json::Object(m) => if m.as_map().contains_key(element_key(legacy)) {
            match m.as_map()[element_key(legacy)] {
                Json::String(s) => Some(s@),
                _ => None,
            }
        } else {
            None
        },
        _ => None,
    }
}

/// `e` is the error reported for a lookup response `res` that does not conform: the response
/// itself, an object keeping all its entries.
pub open spec fn lookup_error(res: Json, e: CmdError) -> bool {
    match res {
        Json::Object(o) => e matches CmdError::NotW3C(Json::Object(m)) && m.as_map() == o.as_map(),
        _ => e == CmdError::NotW3C(res),
    }
}

/// Extract the element reference from the response to a Find Element request.
///
/// The legacy protocol carries it under `"ELEMENT"`, the W3C protocol under [`ELEMENT_KEY`].
/// Any other response is reported as non-conforming, with the response.
pub fn parse_lookup(res: Json, legacy: bool) -> (r: Result<ElementRef, CmdError>)
    ensures
        lookup_result(res, legacy) matches Some(id) ==> (r matches Ok(e) && e@ == id),
        lookup_result(res, legacy) is None ==> (r matches Err(e) && lookup_error(res, e)),
{
    let mut res = match res {
        Json::Object(o) => o,
        other => return Err(CmdError::NotW3C(other)),
    };
    let key = if legacy {
        LEGACY_ELEMENT_KEY
    } else {
        ELEMENT_KEY
    };
    let ghost before = res.as_map();
    match res.remove(key) {
        Some(Json::String(wei)) => Ok(ElementRef(wei)),
        Some(v) => {
            res.insert(key.to_owned(), v);
            proof {
                assert(res.as_map() =~= before);
            }
            Err(CmdError::NotW3C(Json::Object(res)))
        },
        None => {
            proof {
                assert(res.as_map() =~= before);
            }
            Err(CmdError::NotW3C(Json::Object(res)))
        },
    }
}

/// The element references that a response to a Find Elements request carries, if every entry
/// conforms.
pub open spec fn lookup_all_result(j: Json, legacy: bool) -> Option<Seq<Seq<char>>> {
    match j {
        Json::Array(a) => if forall|i: int| 0 <= i < a@.len() ==> #[trigger] lookup_result(a@[i], legacy) is Some {
            Some(Seq::new(a@.len(), |i: int| lookup_result(a@[i], legacy)->0))
        } else {
            None
        },
        _ => None,
    }
}

/// Extract the element references from the response to a Find Elements request.
pub fn parse_lookup_all(res: Json, legacy: bool) -> (r: Result<Vec<ElementRef>, CmdError>)
    ensures
        lookup_all_result(res, legacy) matches Some(ids) ==> (r matches Ok(v) && v@.len() == ids.len()
            && forall|i: int| 0 <= i < ids.len() ==> #[trigger] v@[i]@ == ids[i]),
        !(res is Array) ==> r == Err::<Vec<ElementRef>, CmdError>(CmdError::NotW3C(res)),
        res is Array && lookup_all_result(res, legacy) is None ==> exists|k: int|
            0 <= k < res->Array_0@.len() && (forall|i: int|
                0 <= i < k ==> #[trigger] lookup_result(res->Array_0@[i], legacy) is Some)
                && lookup_result(#[trigger] res->Array_0@[k], legacy) is None && (r matches Err(e)
                && lookup_error(res->Array_0@[k], e)),
{
    let ghost r0 = res;
    let arr = match res {
        Json::Array(a) => a,
        other => return Err(CmdError::NotW3C(other)),
    };
    let ghost items = arr@;
    let mut out: Vec<ElementRef> = Vec::new();
    let mut rest = arr;
    while rest.len() > 0
        invariant
            res == r0,
            r0 is Array && r0->Array_0@ == items,
            out@.len() + rest@.len() == items.len(),
            rest@ =~= items.subrange(out@.len() as int, items.len() as int),
            forall|i: int| 0 <= i < out@.len() ==> #[trigger] lookup_result(items[i], legacy) is Some
                && out@[i]@ == lookup_result(items[i], legacy)->0,
        decreases rest@.len(),
    {
        let ghost k = out@.len() as int;
        let j = rest.remove(0);
        assert(j == items[k]);
        match parse_lookup(j, legacy) {
            Ok(e) => out.push(e),
            Err(e) => {
                assert(lookup_result(items[k], legacy) is None);
                assert(lookup_result(r0->Array_0@[k], legacy) is None);
                assert(forall|i: int| 0 <= i < k ==> lookup_result(r0->Array_0@[i], legacy) is Some);
                return Err(e);
            },
        }
        assert(rest@ =~= items.subrange(out@.len() as int, items.len() as int));
    }
    Ok(out)
}

/// `after` is the script argument `before` as the given protocol expects it: for the legacy
/// protocol, an object's entry under [`ELEMENT_KEY`] moves to `"ELEMENT"`; everything else is
/// unchanged.
pub open spec fn fixed_up(before: Json, after: Json, legacy: bool) -> bool {
    match before {
        Json::Object(m) => {
            &&& after is Object
            &&& if legacy && m.as_map().contains_key(ELEMENT_KEY@) {
                after->Object_0.as_map() == m.as_map().remove(ELEMENT_KEY@).insert(
                    LEGACY_ELEMENT_KEY@,
                    m.as_map()[ELEMENT_KEY@],
                )
            } else {
                after->Object_0.as_map() == m.as_map()
            }
        },
        _ => after == before,
    }
}

fn fixup_one(j: Json) -> (r: Json)
    ensures
        fixed_up(j, r, true),
{
    match j {
        Json::Object(mut o) => {
            let ghost before = o.as_map();
            match o.remove(ELEMENT_KEY) {
                Some(wei) => o.insert(LEGACY_ELEMENT_KEY.to_owned(), wei),
                None => {
                    assert(o.as_map() =~= before);
                },
            }
            Json::Object(o)
        },
        other => other,
    }
}

/// Rename element references in script arguments for the legacy protocol.
///
/// Element references are written under [`ELEMENT_KEY`]; the legacy protocol expects them
/// under `"ELEMENT"`. Arguments of the W3C protocol are left as they are.
pub fn fixup_elements(args: &mut Vec<Json>, legacy: bool)
    ensures
        final(args)@.len() == old(args)@.len(),
        forall|i: int| 0 <= i < old(args)@.len() ==> #[trigger] fixed_up(
            old(args)@[i],
            final(args)@[i],
            legacy,
        ),
{
    if !legacy {
        proof {
            assert forall|i: int| 0 <= i < args@.len() implies #[trigger] fixed_up(
                args@[i],
                args@[i],
                legacy,
            ) by {}
        }
        return;
    }
    let mut out: Vec<Json> = Vec::new();
    let mut rest: Vec<Json> = Vec::new();
    std::mem::swap(&mut rest, args);
    let ghost items = rest@;
    while rest.len() > 0
        invariant
            out@.len() + rest@.len() == items.len(),
            rest@ =~= items.subrange(out@.len() as int, items.len() as int),
            forall|i: int| 0 <= i < out@.len() ==> #[trigger] fixed_up(items[i], out@[i], true),
        decreases rest@.len(),
    {
        let ghost k = out@.len() as int;
        let j = rest.remove(0);
        assert(j == items[k]);
        out.push(fixup_one(j));
        assert(rest@ =~= items.subrange(out@.len() as int, items.len() as int));
    }
    *args = out;
}

} // verus!
