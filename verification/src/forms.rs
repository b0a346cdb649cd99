//! How elements of select boxes and forms are located, and the scripts that fill in and submit
//! forms.
use crate::command::{json_str, WebDriverCommand};
use crate::elements::{is_element_json, ElementRef, ELEMENT_KEY, LEGACY_ELEMENT_KEY};
use crate::json::{Json, JsonMap};
use crate::text::{decimal, push_decimal, string_append, string_push};
use vstd::prelude::*;

verus! {

/// The CSS selector of the options of a select box with the given value.
pub open spec fn option_value_css(value: Seq<char>) -> Seq<char> {
    "option[value='"@ + value + "']"@
}

/// The CSS selector of the option of a select box at the given position, counted from 1.
pub open spec fn option_index_css(position: nat) -> Seq<char> {
    "option:nth-of-type("@ + decimal(position) + ")"@
}

/// The XPath of the options of a select box with the given label, below the select box.
pub open spec fn option_label_xpath(label: Seq<char>) -> Seq<char> {
    ".//option[.='"@ + label + "']"@
}

/// The CSS selector of the form fields with the given name.
pub open spec fn field_name_css(name: Seq<char>) -> Seq<char> {
    "[name='"@ + name + "']"@
}

/// One character as it is written inside a double-quoted CSS string: a backslash and a double
/// quote are escaped with a backslash.
pub open spec fn css_escaped_char(c: char) -> Seq<char> {
    if c == '\\' {
        seq!['\\', '\\']
    } else if c == '"' {
        seq!['\\', '"']
    } else {
        seq![c]
    }
}

/// `s` as it is written inside a double-quoted CSS string.
pub open spec fn css_escaped(s: Seq<char>) -> Seq<char>
    decreases s.len(),
{
    if s.len() == 0 {
        Seq::empty()
    } else {
        css_escaped(s.drop_last()) + css_escaped_char(s.last())
    }
}

/// The CSS selector of the submit buttons (inputs or buttons) whose value is `label`, compared
/// without regard to case.
pub open spec fn submit_button_css(label: Seq<char>) -> Seq<char> {
    "input[type=submit][value=\""@ + css_escaped(label) + "\" i],button[type=submit][value=\""@
        + css_escaped(label) + "\" i]"@
}

/// The CSS selector of a form's submit buttons.
pub open spec fn submit_css() -> Seq<char> {
    "input[type=submit],button[type=submit]"@
}

/// The CSS selector that selects the options of a select box with the given value.
pub fn option_value_selector(value: &str) -> (s: String)
    ensures
        s@ == option_value_css(value@),
{
    let mut s = String::from_str("option[value='");
    string_append(&mut s, value);
    string_append(&mut s, "']");
    s
}

/// The CSS selector that selects the option of a select box at the given index, counted from 0.
pub fn option_index_selector(index: usize) -> (s: String)
    requires
        index < usize::MAX,
    ensures
        s@ == option_index_css((index + 1) as nat),
{
    let mut s = String::from_str("option:nth-of-type(");
    push_decimal(&mut s, (index + 1) as u64);
    string_append(&mut s, ")");
    s
}

/// The XPath expression that selects the options of a select box with the given label.
pub fn option_label_selector(label: &str) -> (s: String)
    ensures
        s@ == option_label_xpath(label@),
{
    let mut s = String::from_str(".//option[.='");
    string_append(&mut s, label);
    string_append(&mut s, "']");
    s
}

/// The CSS selector that selects the form fields with the given name.
pub fn field_name_selector(name: &str) -> (s: String)
    ensures
        s@ == field_name_css(name@),
{
    let mut s = String::from_str("[name='");
    string_append(&mut s, name);
    string_append(&mut s, "']");
    s
}

/// Append `t` to `s`, escaped as inside a double-quoted CSS string.
fn push_css_escaped(s: &mut String, t: &str)
    ensures
        final(s)@ == old(s)@ + css_escaped(t@),
{
    let n = t.unicode_len();
    let mut i: usize = 0;
    while i < n
        invariant
            n == t@.len(),
            i <= n,
            s@ == old(s)@ + css_escaped(t@.subrange(0, i as int)),
        decreases n - i,
    {
        let c = t.get_char(i);
        if c == '\\' {
            string_append(s, "\\\\");
        } else if c == '"' {
            string_append(s, "\\\"");
        } else {
            string_push(s, c);
        }
        proof {
            reveal_strlit("\\\\");
            reveal_strlit("\\\"");
            let next = t@.subrange(0, i + 1);
            assert(next.drop_last() =~= t@.subrange(0, i as int));
            assert(next.last() == c);
            assert(s@ =~= old(s)@ + css_escaped(next));
        }
        i = i + 1;
    }
    proof {
        assert(t@.subrange(0, n as int) =~= t@);
    }
}

/// The CSS selector that selects the submit buttons of a form whose value is `label`.
pub fn submit_button_selector(label: &str) -> (s: String)
    ensures
        s@ == submit_button_css(label@),
{
    let mut s = String::from_str("input[type=submit][value=\"");
    push_css_escaped(&mut s, label);
    string_append(&mut s, "\" i],button[type=submit][value=\"");
    push_css_escaped(&mut s, label);
    string_append(&mut s, "\" i]");
    s
}

/// The CSS selector that selects the submit buttons of a form.
pub fn submit_selector() -> (s: &'static str)
    ensures
        s@ == submit_css(),
{
    "input[type=submit],button[type=submit]"
}

/// The element reference as a script argument of the given protocol.
pub fn element_argument(e: ElementRef, legacy: bool) -> (j: Json)
    ensures
        is_element_json(j, e@, legacy),
{
    let key = if legacy {
        LEGACY_ELEMENT_KEY
    } else {
        ELEMENT_KEY
    };
    let mut m = JsonMap::new();
    m.insert(key.to_owned(), Json::String(e.into_string()));
    proof {
        assert(m.as_map().dom() =~= set![key@]);
    }
    Json::Object(m)
}

/// The script that sets the value of the field `arguments[0]` to `arguments[1]`.
pub open spec fn set_value_script() -> Seq<char> {
    "arguments[0].value = arguments[1]"@
}

/// The script that submits the form `arguments[0]` with a new form's `submit` handler, so that
/// a submit button named "submit" does not hide the form's own.
pub open spec fn submit_form_script() -> Seq<char> {
    "document.createElement('form').submit.call(arguments[0])"@
}

/// The script that adds to the form `arguments[0]` a hidden input named `arguments[1]` with the
/// value `arguments[2]`.
pub open spec fn hidden_field_script() -> Seq<char> {
    "var h = document.createElement('input');h.setAttribute('type', 'hidden');h.setAttribute('name', arguments[1]);h.value = arguments[2];arguments[0].appendChild(h)"@
}

/// The command that sets the value of the form field `field` to `value`.
pub fn set_value_command(field: ElementRef, value: &str, legacy: bool) -> (c: WebDriverCommand)
    ensures
        c matches WebDriverCommand::ExecuteScript(script, args) && script@ == set_value_script()
            && args@.len() == 2 && is_element_json(args@[0], field@, legacy) && json_str(
            args@[1],
            value@,
        ),
{
    let args = vec![element_argument(field, legacy), Json::String(value.to_owned())];
    WebDriverCommand::ExecuteScript("arguments[0].value = arguments[1]".to_owned(), args)
}

/// The command that submits the form `form` directly, without a button.
pub fn submit_form_command(form: ElementRef, legacy: bool) -> (c: WebDriverCommand)
    ensures
        c matches WebDriverCommand::ExecuteScript(script, args) && script@ == submit_form_script()
            && args@.len() == 1 && is_element_json(args@[0], form@, legacy),
{
    let args = vec![element_argument(form, legacy)];
    WebDriverCommand::ExecuteScript(
        "document.createElement('form').submit.call(arguments[0])".to_owned(),
        args,
    )
}

/// The command that adds to the form `form` a hidden field `field` with the value `value`.
pub fn hidden_field_command(form: ElementRef, field: &str, value: &str, legacy: bool) -> (c:
    WebDriverCommand)
    ensures
        c matches WebDriverCommand::ExecuteScript(script, args) && script@ == hidden_field_script()
            && args@.len() == 3 && is_element_json(args@[0], form@, legacy) && json_str(
            args@[1],
            field@,
        ) && json_str(args@[2], value@),
{
    let args = vec![
        element_argument(form, legacy),
        Json::String(field.to_owned()),
        Json::String(value.to_owned()),
    ];
    WebDriverCommand::ExecuteScript(
        "var h = document.createElement('input');h.setAttribute('type', 'hidden');h.setAttribute('name', arguments[1]);h.value = arguments[2];arguments[0].appendChild(h)".to_owned(),
        args,
    )
}

} // verus!
