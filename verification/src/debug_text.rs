use vstd::prelude::*;

use crate::external::{str_debug, str_debug_text, timestamp_debug, timestamp_debug_text};
use crate::text::{bool_string, bool_text, i64_text, int_text};

verus! {

/// One field of a struct's debug text: `name: value`.
pub open spec fn field_text(f: (Seq<char>, Seq<char>)) -> Seq<char> {
    f.0 + ": "@ + f.1
}

/// The fields of a struct's debug text, joined by `, `.
pub open spec fn fields_joined(fs: Seq<(Seq<char>, Seq<char>)>) -> Seq<char>
    decreases fs.len(),
{
    if fs.len() == 0 {
        seq![]
    } else if fs.len() == 1 {
        field_text(fs[0])
    } else {
        fields_joined(fs.drop_last()) + ", "@ + field_text(fs.last())
    }
}

/// The debug text of a struct as `Formatter::debug_struct` writes it:
/// `Name { a: x, b: y }`, or the bare name when there is no field.
pub open spec fn debug_struct_text(name: Seq<char>, fs: Seq<(Seq<char>, Seq<char>)>) -> Seq<char> {
    if fs.len() == 0 {
        name
    } else {
        name + " { "@ + fields_joined(fs) + " }"@
    }
}

/// The debug text of a struct, written one field at a time.
pub struct DebugStructText {
    pub text: String,
    pub has_fields: bool,
    pub name: Ghost<Seq<char>>,
    pub fields: Ghost<Seq<(Seq<char>, Seq<char>)>>,
}

impl DebugStructText {
    /// The text holds the name and the fields written so far.
    pub closed spec fn wf(&self) -> bool {
        &&& self.has_fields == (self.fields@.len() > 0)
        &&& self.text@ == if self.fields@.len() == 0 {
            self.name@
        } else {
            self.name@ + " { "@ + fields_joined(self.fields@)
        }
    }

    /// Start the debug text of a struct named `name`.
    pub fn new(name: &str) -> (d: Self)
        ensures
            d.wf(),
            d.name@ == name@,
            d.fields@ == Seq::<(Seq<char>, Seq<char>)>::empty(),
    {
        DebugStructText {
            text: name.to_string(),
            has_fields: false,
            name: Ghost(name@),
            fields: Ghost(Seq::empty()),
        }
    }

    /// Write the field `name` with the debug text `value`.
    pub fn field(&mut self, name: &str, value: &str)
        requires
            old(self).wf(),
        ensures
            final(self).wf(),
            final(self).name@ == old(self).name@,
            final(self).fields@ == old(self).fields@.push((name@, value@)),
    {
        let ghost fs = self.fields@;
        let ghost f = (name@, value@);
        if self.has_fields {
            self.text.append(", ");
        } else {
            self.text.append(" { ");
        }
        self.text.append(name);
        self.text.append(": ");
        self.text.append(value);
        self.has_fields = true;
        self.fields = Ghost(fs.push(f));
        proof {
            let gs = fs.push(f);
            assert(gs.drop_last() =~= fs);
            assert(gs.last() == f);
            if fs.len() == 0 {
                assert(fields_joined(gs) == field_text(f));
            }
        }
        assert(self.text@ =~= self.name@ + " { "@ + fields_joined(self.fields@));
    }

    /// The finished debug text.
    pub fn finish(self) -> (s: String)
        requires
            self.wf(),
        ensures
            s@ == debug_struct_text(self.name@, self.fields@),
    {
        let mut t = self.text;
        if self.has_fields {
            t.append(" }");
        }
        t
    }
}

/// The debug text of a field whose value is hidden: `Some([REDACTED])`
/// when it holds a value, `None` when it does not.
pub open spec fn redacted_text(present: bool) -> Seq<char> {
    if present {
        "Some([REDACTED])"@
    } else {
        "None"@
    }
}

/// The debug text of a field whose value is hidden.
pub fn redacted(present: bool) -> (s: &'static str)
    ensures
        s@ == redacted_text(present),
{
    if present {
        "Some([REDACTED])"
    } else {
        "None"
    }
}

/// `Some(x)` around the debug text `x` of a value.
pub open spec fn some_text(x: Seq<char>) -> Seq<char> {
    "Some("@ + x + ")"@
}

fn some_string(x: &str) -> (s: String)
    ensures
        s@ == some_text(x@),
{
    let mut s = "Some(".to_string();
    s.append(x);
    s.append(")");
    s
}

/// The debug text of an optional `bool`.
pub open spec fn opt_bool_debug(v: Option<bool>) -> Seq<char> {
    match v {
        Some(b) => some_text(bool_text(b)),
        None => "None"@,
    }
}

/// The debug text of an optional `bool`.
pub fn debug_opt_bool(v: Option<bool>) -> (s: String)
    ensures
        s@ == opt_bool_debug(v),
{
    match v {
        Some(b) => some_string(bool_string(b).as_str()),
        None => "None".to_string(),
    }
}

/// The debug text of an optional `i64`.
pub open spec fn opt_i64_debug(v: Option<i64>) -> Seq<char> {
    match v {
        Some(n) => some_text(int_text(n as int)),
        None => "None"@,
    }
}

/// The debug text of an optional `i64`.
pub fn debug_opt_i64(v: Option<i64>) -> (s: String)
    ensures
        s@ == opt_i64_debug(v),
{
    match v {
        Some(n) => some_string(i64_text(n).as_str()),
        None => "None".to_string(),
    }
}

/// The debug text of an optional text, quoted and escaped.
pub open spec fn opt_str_debug(v: Option<String>) -> Seq<char> {
    match v {
        Some(s) => some_text(str_debug_text(s@)),
        None => "None"@,
    }
}

/// The debug text of an optional text, quoted and escaped.
pub fn debug_opt_str(v: &Option<String>) -> (s: String)
    ensures
        s@ == opt_str_debug(*v),
{
    match v {
        Some(t) => some_string(str_debug(t.as_str()).as_str()),
        None => "None".to_string(),
    }
}

/// The debug text of an optional timestamp.
pub open spec fn opt_timestamp_debug(v: Option<time::OffsetDateTime>) -> Seq<char> {
    match v {
        Some(t) => some_text(timestamp_debug_text(t)),
        None => "None"@,
    }
}

/// The debug text of an optional timestamp.
pub fn debug_opt_timestamp(v: &Option<time::OffsetDateTime>) -> (s: String)
    ensures
        s@ == opt_timestamp_debug(*v),
{
    match v {
        Some(t) => some_string(timestamp_debug(t).as_str()),
        None => "None".to_string(),
    }
}

/// Debug texts of list items joined by `, `.
pub open spec fn items_joined(items: Seq<Seq<char>>) -> Seq<char>
    decreases items.len(),
{
    if items.len() == 0 {
        seq![]
    } else if items.len() == 1 {
        items[0]
    } else {
        items_joined(items.drop_last()) + ", "@ + items.last()
    }
}

/// The debug text of a list of texts: `["a", "b"]`, each text quoted and
/// escaped.
pub open spec fn str_list_debug(l: Seq<String>) -> Seq<char> {
    "["@ + items_joined(l.map_values(|s: String| str_debug_text(s@))) + "]"@
}

/// The debug text of an optional list of texts.
pub open spec fn opt_str_list_debug(v: Option<Vec<String>>) -> Seq<char> {
    match v {
        Some(l) => some_text(str_list_debug(l@)),
        None => "None"@,
    }
}

fn str_list_string(l: &Vec<String>) -> (s: String)
    ensures
        s@ == str_list_debug(l@),
{
    let mut s = "[".to_string();
    let ghost items = l@.map_values(|t: String| str_debug_text(t@));
    let mut i: usize = 0;
    while i < l.len()
        invariant
            i <= l@.len(),
            items == l@.map_values(|t: String| str_debug_text(t@)),
            s@ == "["@ + items_joined(items.subrange(0, i as int)),
        decreases l@.len() - i,
    {
        let ghost before = s@;
        if i > 0 {
            s.append(", ");
        }
        let d = str_debug(l[i].as_str());
        s.append(d.as_str());
        proof {
            let p = items.subrange(0, i + 1);
            assert(p.drop_last() =~= items.subrange(0, i as int));
            assert(p.last() == d@);
            if i == 0 {
                assert(items_joined(p) == d@);
            }
        }
        assert(s@ =~= "["@ + items_joined(items.subrange(0, i + 1)));
        i = i + 1;
    }
    assert(items.subrange(0, l@.len() as int) =~= items);
    s.append("]");
    s
}

/// The debug text of an optional list of texts.
pub fn debug_opt_str_list(v: &Option<Vec<String>>) -> (s: String)
    ensures
        s@ == opt_str_list_debug(*v),
{
    match v {
        Some(l) => some_string(str_list_string(l).as_str()),
        None => "None".to_string(),
    }
}

} // verus!
