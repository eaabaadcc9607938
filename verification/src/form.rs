use vstd::prelude::*;

use crate::error::{check_outcome, invalid, TwilioError};
use crate::external::{form_encoded, form_urlencode};
use crate::text::{bool_string, bool_text, decimal, u32_text};

verus! {

/// One `application/x-www-form-urlencoded` name/value pair of a request.
pub struct FormParam {
    pub name: String,
    pub value: String,
}

/// A parameter list seen as pairs of texts.
pub type ParamSeq = Seq<(Seq<char>, Seq<char>)>;

/// The texts of a parameter list.
pub open spec fn params_view(v: Seq<FormParam>) -> ParamSeq {
    v.map_values(|p: FormParam| (p.name@, p.value@))
}

/// The parameter that an optional text field contributes.
pub open spec fn str_param(key: Seq<char>, v: Option<Seq<char>>) -> ParamSeq {
    match v {
        Some(s) => seq![(key, s)],
        None => seq![],
    }
}

/// The parameter that an optional flag contributes.
pub open spec fn bool_param(key: Seq<char>, v: Option<bool>) -> ParamSeq {
    match v {
        Some(b) => seq![(key, bool_text(b))],
        None => seq![],
    }
}

/// The parameter that an optional number contributes.
pub open spec fn u32_param(key: Seq<char>, v: Option<u32>) -> ParamSeq {
    match v {
        Some(n) => seq![(key, decimal(n as nat))],
        None => seq![],
    }
}

/// The parameters that a repeated text field contributes, one per value.
pub open spec fn list_params(key: Seq<char>, vs: Seq<&str>) -> ParamSeq {
    vs.map_values(|s: &str| (key, s@))
}

/// A closed set of values sent as fixed texts.
pub trait FormEnum: Copy {
    /// The text this value is sent as.
    spec fn spec_form_value(self) -> Seq<char>;

    /// The text this value is sent as.
    fn form_value(self) -> (s: &'static str)
        ensures
            s@ == self.spec_form_value(),
    ;
}

/// The text of an optional enumerated value.
pub open spec fn enum_view<E: FormEnum>(v: Option<E>) -> Option<Seq<char>> {
    match v {
        Some(e) => Some(e.spec_form_value()),
        None => None,
    }
}

/// Append `(key, value)` to a parameter list.
pub fn push_pair(params: &mut Vec<FormParam>, key: &str, value: &str)
    ensures
        params_view(final(params)@) == params_view(old(params)@).push((key@, value@)),
{
    params.push(FormParam { name: key.to_string(), value: value.to_string() });
    assert(params_view(final(params)@) =~= params_view(old(params)@).push((key@, value@)));
}

/// Append the parameter of an optional text field.
pub fn push_str(params: &mut Vec<FormParam>, key: &str, value: Option<&str>)
    ensures
        params_view(final(params)@) == params_view(old(params)@) + str_param(
            key@,
            crate::text::opt_view(value),
        ),
{
    if let Some(v) = value {
        push_pair(params, key, v);
    }
    assert(params_view(final(params)@) =~= params_view(old(params)@) + str_param(
        key@,
        crate::text::opt_view(value),
    ));
}

/// Append the parameter of an optional flag.
pub fn push_bool(params: &mut Vec<FormParam>, key: &str, value: Option<bool>)
    ensures
        params_view(final(params)@) == params_view(old(params)@) + bool_param(key@, value),
{
    if let Some(b) = value {
        let text = bool_string(b);
        push_pair(params, key, text.as_str());
    }
    assert(params_view(final(params)@) =~= params_view(old(params)@) + bool_param(key@, value));
}

/// Append the parameter of an optional number.
pub fn push_u32(params: &mut Vec<FormParam>, key: &str, value: Option<u32>)
    ensures
        params_view(final(params)@) == params_view(old(params)@) + u32_param(key@, value),
{
    if let Some(n) = value {
        let text = u32_text(n);
        push_pair(params, key, text.as_str());
    }
    assert(params_view(final(params)@) =~= params_view(old(params)@) + u32_param(key@, value));
}

/// Append the parameter of an optional enumerated value.
pub fn push_enum<E: FormEnum>(params: &mut Vec<FormParam>, key: &str, value: Option<E>)
    ensures
        params_view(final(params)@) == params_view(old(params)@) + str_param(
            key@,
            enum_view(value),
        ),
{
    if let Some(e) = value {
        push_pair(params, key, e.form_value());
    }
    assert(params_view(final(params)@) =~= params_view(old(params)@) + str_param(
        key@,
        enum_view(value),
    ));
}

/// Append one parameter per value of a repeated text field.
pub fn push_list(params: &mut Vec<FormParam>, key: &str, values: &[&str])
    ensures
        params_view(final(params)@) == params_view(old(params)@) + list_params(key@, values@),
{
    let ghost start = params_view(params@);
    let n = values.len();
    let mut i: usize = 0;
    while i < n
        invariant
            n == values@.len(),
            i <= n,
            params_view(params@) == start + list_params(key@, values@.take(i as int)),
        decreases n - i,
    {
        push_pair(params, key, values[i]);
        assert(list_params(key@, values@.take(i + 1)) =~= list_params(
            key@,
            values@.take(i as int),
        ).push((key@, values@[i as int]@)));
        i = i + 1;
    }
    assert(values@.take(n as int) =~= values@);
}

/// The rule on page sizes: `PageSize` is in `1..=1000` when given.
pub open spec fn page_size_violation(v: Option<u32>) -> Option<Seq<char>> {
    match v {
        Some(n) => if 1 <= n <= 1000 {
            None
        } else {
            Some("PageSize must be between 1 and 1000"@)
        },
        None => None,
    }
}

/// Check the rule on page sizes.
pub fn validate_page_size(v: Option<u32>) -> (r: Result<(), TwilioError>)
    ensures
        check_outcome(r, page_size_violation(v)),
{
    if let Some(n) = v {
        if !(1 <= n && n <= 1000) {
            return Err(invalid("PageSize must be between 1 and 1000"));
        }
    }
    Ok(())
}


/// Append the parameter of an optional owned text field.
pub fn push_opt_string(params: &mut Vec<FormParam>, key: &str, value: &Option<String>)
    ensures
        params_view(final(params)@) == params_view(old(params)@) + str_param(
            key@,
            crate::text::opt_string_view(*value),
        ),
{
    match value {
        Some(v) => push_str(params, key, Some(v.as_str())),
        None => push_str(params, key, None),
    }
}

/// The parameters that a repeated owned text field contributes, one per value.
pub open spec fn string_list_params(key: Seq<char>, vs: Seq<String>) -> ParamSeq {
    vs.map_values(|s: String| (key, s@))
}

/// Append one parameter per value of a repeated owned text field.
pub fn push_string_list(params: &mut Vec<FormParam>, key: &str, values: &Vec<String>)
    ensures
        params_view(final(params)@) == params_view(old(params)@) + string_list_params(
            key@,
            values@,
        ),
{
    let ghost start = params_view(params@);
    let n = values.len();
    let mut i: usize = 0;
    while i < n
        invariant
            n == values@.len(),
            i <= n,
            params_view(params@) == start + string_list_params(key@, values@.take(i as int)),
        decreases n - i,
    {
        push_pair(params, key, values[i].as_str());
        assert(string_list_params(key@, values@.take(i + 1)) =~= string_list_params(
            key@,
            values@.take(i as int),
        ).push((key@, values@[i as int]@)));
        i = i + 1;
    }
    assert(values@.take(n as int) =~= values@);
}

/// The `application/x-www-form-urlencoded` text of a parameter list: each
/// pair as `name=value`, both serialized, joined by `&`. This is the body of
/// a form request and the query of a list request.
pub open spec fn encoded_pairs(ps: ParamSeq) -> Seq<char>
    decreases ps.len(),
{
    if ps.len() == 0 {
        seq![]
    } else {
        let init = encoded_pairs(ps.drop_last());
        let sep = if ps.len() > 1 {
            seq!['&']
        } else {
            seq![]
        };
        init + sep + form_encoded(ps.last().0) + seq!['='] + form_encoded(ps.last().1)
    }
}

/// Serialize a parameter list as `application/x-www-form-urlencoded` text.
pub fn encode_params(params: &Vec<FormParam>) -> (s: String)
    ensures
        s@ == encoded_pairs(params_view(params@)),
{
    let ghost ps = params_view(params@);
    let mut out = String::new();
    let n = params.len();
    let mut i: usize = 0;
    while i < n
        invariant
            n == params@.len(),
            ps == params_view(params@),
            i <= n,
            out@ == encoded_pairs(ps.take(i as int)),
        decreases n - i,
    {
        if i > 0 {
            out.append("&");
        }
        let k = form_urlencode(params[i].name.as_str());
        let v = form_urlencode(params[i].value.as_str());
        out.append(k.as_str());
        out.append("=");
        out.append(v.as_str());
        proof {
            reveal_strlit("&");
            reveal_strlit("=");
            assert(ps.take(i + 1).drop_last() =~= ps.take(i as int));
            assert(ps.take(i + 1).last() == ps[i as int]);
        }
        assert(out@ =~= encoded_pairs(ps.take(i + 1)));
        i = i + 1;
    }
    assert(ps.take(n as int) =~= ps);
    out
}

} // verus!
