//! Query and form parameters: key/value pairs in the order they are sent.

use vstd::prelude::*;
use vstd::string::*;

use crate::link::opt_view;
use crate::sets::AttrMap;
use crate::text::{decimal, to_decimal};

verus! {

/// The text form of parameters.
pub type ParamsView = Seq<(Seq<char>, Seq<char>)>;

/// The text form of a list of parameters.
pub open spec fn params_view(v: Seq<(String, String)>) -> ParamsView {
    v.map_values(|p: (String, String)| (p.0@, p.1@))
}

/// The parameter `key=value` where a value is given, else nothing.
pub open spec fn opt_param(key: Seq<char>, value: Option<Seq<char>>) -> ParamsView {
    match value {
        Some(v) => seq![(key, v)],
        None => seq![],
    }
}

/// The parameter value of a flag.
pub open spec fn flag_text(b: bool) -> Seq<char> {
    if b {
        "true"@
    } else {
        "false"@
    }
}

/// The parameter value of an optional flag.
pub open spec fn flag_opt(b: Option<bool>) -> Option<Seq<char>> {
    match b {
        Some(b) => Some(flag_text(b)),
        None => None,
    }
}

/// The parameter value of an optional number.
pub open spec fn number_opt(n: Option<u64>) -> Option<Seq<char>> {
    match n {
        Some(n) => Some(decimal(n as nat)),
        None => None,
    }
}

/// The parameters of custom attributes: `custom_attribute[key]=value` for
/// each attribute in key order.
pub open spec fn attr_params(attrs: ParamsView) -> ParamsView {
    attrs.map_values(
        |p: (Seq<char>, Seq<char>)| ("custom_attribute["@ + p.0 + "]"@, p.1),
    )
}

/// Appends the parameter `key=value`.
pub fn push_param(params: &mut Vec<(String, String)>, key: &str, value: String)
    ensures
        params_view(final(params)@) == params_view(old(params)@) + seq![(key@, value@)],
{
    let ghost before = params_view(params@);
    let k = String::from_str(key);
    let ghost pair = (k@, value@);
    params.push((k, value));
    assert(params_view(params@) =~= before + seq![pair]);
}

/// Appends the parameter `key=value` where a value is given.
pub fn push_opt(params: &mut Vec<(String, String)>, key: &str, value: Option<String>)
    ensures
        params_view(final(params)@) == params_view(old(params)@) + opt_param(key@, opt_view(value)),
{
    match value {
        Some(v) => push_param(params, key, v),
        None => {
            assert(params_view(params@) =~= params_view(params@) + opt_param(key@, opt_view(value)));
        },
    }
}

/// The parameter value of an optional flag.
pub fn opt_flag(b: Option<bool>) -> (r: Option<String>)
    ensures
        opt_view(r) == flag_opt(b),
{
    match b {
        Some(true) => Some(String::from_str("true")),
        Some(false) => Some(String::from_str("false")),
        None => None,
    }
}

/// The parameter value of an optional number.
pub fn opt_number(n: Option<u64>) -> (r: Option<String>)
    ensures
        opt_view(r) == number_opt(n),
{
    match n {
        Some(n) => Some(to_decimal(n)),
        None => None,
    }
}

/// The parameter value of an optional text.
pub fn opt_text(s: &Option<String>) -> (r: Option<String>)
    ensures
        opt_view(r) == opt_view(*s),
{
    match s {
        Some(s) => Some(s.clone()),
        None => None,
    }
}

/// Appends the parameters of custom attributes.
pub fn push_attrs(params: &mut Vec<(String, String)>, attrs: &AttrMap)
    ensures
        params_view(final(params)@) == params_view(old(params)@) + attr_params(attrs@),
{
    let ghost start = params_view(params@);
    let entries = attrs.to_vec();
    let ghost ev = entries@.map_values(|p: (String, String)| (p.0@, p.1@));
    let mut i: usize = 0;
    assert(attr_params(ev.subrange(0, 0)) =~= Seq::<(Seq<char>, Seq<char>)>::empty());
    assert(start + attr_params(ev.subrange(0, 0)) =~= start);
    while i < entries.len()
        invariant
            ev == entries@.map_values(|p: (String, String)| (p.0@, p.1@)),
            ev == attrs@,
            i <= entries.len(),
            params_view(params@) == start + attr_params(ev.subrange(0, i as int)),
        decreases entries.len() - i,
    {
        let mut key = String::from_str("custom_attribute[");
        key.append(entries[i].0.as_str());
        key.append("]");
        let ghost before = params_view(params@);
        let ghost pair = (key@, entries@[i as int].1@);
        params.push((key, entries[i].1.clone()));
        assert(params_view(params@) =~= before.push(pair));
        assert(attr_params(ev.subrange(0, i + 1)) =~= attr_params(ev.subrange(0, i as int)).push(
            pair,
        ));
        i = i + 1;
    }
    assert(ev.subrange(0, i as int) =~= ev);
}

} // verus!
