use vstd::prelude::*;
use crate::json::{json_quote, quote};

verus! {

/// The JSON text of a variable's value: a string literal, or `null`.
pub open spec fn value_text(value: Option<Seq<char>>) -> Seq<char> {
    match value {
        Some(s) => json_quote(s),
        None => "null"@,
    }
}

/// The text that one more binding adds: a separator (an opening brace for
/// the first), the quoted name, a colon and the value.
pub open spec fn binding_text(so_far: Seq<char>, name: Seq<char>, value: Option<Seq<char>>) -> Seq<char> {
    (if so_far.len() == 0 {
        "{"@
    } else {
        ","@
    }) + json_quote(name) + ":"@ + value_text(value)
}

/// The variables of a GraphQL query, kept as the text of a JSON object whose
/// closing brace is still to come. No binding means no text at all.
pub struct Variables {
    json: String,
}

pub open spec fn opt_view(v: Option<&str>) -> Option<Seq<char>> {
    match v {
        Some(s) => Some(s@),
        None => None,
    }
}

impl View for Variables {
    type V = Seq<char>;

    closed spec fn view(&self) -> Seq<char> {
        self.json@
    }
}

impl Variables {
    pub fn new() -> (r: Variables)
        ensures
            r@ == Seq::<char>::empty(),
    {
        Variables { json: String::new() }
    }

    /// Binds `name` to a string, or to null.
    pub fn push(&mut self, name: &str, value: Option<&str>)
        ensures
            final(self)@ == old(self)@ + binding_text(old(self)@, name@, opt_view(value)),
    {
        let ghost before = self@;
        if self.json.as_str().unicode_len() == 0 {
            self.json.append("{");
        } else {
            self.json.append(",");
        }
        let q = quote(name);
        self.json.append(q.as_str());
        self.json.append(":");
        match value {
            Some(v) => {
                let qv = quote(v);
                self.json.append(qv.as_str());
            },
            None => {
                self.json.append("null");
            },
        }
        assert(self@ =~= before + binding_text(before, name@, opt_view(value)));
    }

    /// The JSON object, or nothing where no variable was bound.
    pub fn build(self) -> (r: Option<String>)
        ensures
            self@.len() == 0 ==> r is None,
            self@.len() > 0 ==> (r matches Some(t) && t@ == self@ + "}"@),
    {
        if self.json.as_str().unicode_len() == 0 {
            None
        } else {
            let mut json = self.json;
            json.append("}");
            Some(json)
        }
    }
}

} // verus!
