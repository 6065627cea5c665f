//! The JSON-RPC 2.0 error object: `{ "code", "message", "data" }`.
use crate::decimal::{int_text, push_int_text};
use crate::outside::{str_debug, str_debug_of, value_debug, value_debug_of, value_eq_of};
use serde_json::Value;
use vstd::prelude::*;
use vstd::std_specs::cmp::PartialEqSpec;

verus! {

/// A JSON-RPC 2.0 error object.
#[derive(Clone, Debug)]
pub struct RpcError {
    /// The integer identifier of the error
    pub code: i32,
    /// A string describing the error message
    pub message: String,
    /// Additional data specific to the error
    pub data: Option<Value>,
}

/// Whether two optional data values compare equal: both absent, or both
/// present and equal as JSON values.
pub open spec fn data_eq(a: Option<Value>, b: Option<Value>) -> bool {
    match (a, b) {
        (None, None) => true,
        (Some(x), Some(y)) => x == y || value_eq_of(x, y),
        _ => false,
    }
}

/// The text that `Debug` writes for the optional data field.
pub open spec fn data_debug_text(d: Option<Value>) -> Seq<char> {
    match d {
        None => "None"@,
        Some(v) => "Some("@ + value_debug_of(v) + ")"@,
    }
}

impl RpcError {
    /// Field-by-field equality: the same code, the same message, and data
    /// that compare equal.
    pub open spec fn same_as(&self, o: &RpcError) -> bool {
        &&& self.code == o.code
        &&& self.message@ == o.message@
        &&& data_eq(self.data, o.data)
    }

    /// The text that `Debug` writes for this error object.
    pub open spec fn debug_text(&self) -> Seq<char> {
        "RpcError { code: "@ + int_text(self.code as int) + ", message: "@ + str_debug_of(
            self.message@,
        ) + ", data: "@ + data_debug_text(self.data) + " }"@
    }

    /// The error object that stands for a failure known only by its text:
    /// code -1, that text as the message, and no data.
    pub fn from_message(message: String) -> (r: RpcError)
        ensures
            r.code == -1,
            r.message == message,
            r.data is None,
    {
        RpcError { code: -1, message, data: None }
    }

    /// The text that `Debug` writes for this error object.
    pub fn debug_string(&self) -> (r: String)
        ensures
            r@ == self.debug_text(),
    {
        let mut s = String::new();
        s.append("RpcError { code: ");
        push_int_text(self.code, &mut s);
        s.append(", message: ");
        let m = str_debug(self.message.as_str());
        s.append(m.as_str());
        s.append(", data: ");
        match &self.data {
            None => s.append("None"),
            Some(v) => {
                s.append("Some(");
                let t = value_debug(v);
                s.append(t.as_str());
                s.append(")");
            },
        }
        s.append(" }");
        assert(s@ =~= self.debug_text());
        s
    }

    /// Equality is structural: two error objects with the same code, the
    /// same message and the same data are equal, and a difference in the
    /// code, the message or the data makes them unequal.
    pub proof fn lemma_eq_structural(a: RpcError, b: RpcError)
        ensures
            (a.code == b.code && a.message@ == b.message@ && a.data == b.data) ==> a.eq_spec(&b),
            a.code != b.code ==> !a.eq_spec(&b),
            a.message@ != b.message@ ==> !a.eq_spec(&b),
            !data_eq(a.data, b.data) ==> !a.eq_spec(&b),
    {
    }
}

impl PartialEq for RpcError {
    fn eq(&self, o: &RpcError) -> (r: bool)
        ensures
            r == self.same_as(o),
    {
        if self.code != o.code || self.message != o.message {
            return false;
        }
        match (&self.data, &o.data) {
            (None, None) => true,
            (Some(x), Some(y)) => x.eq(y),
            _ => false,
        }
    }
}

impl vstd::std_specs::cmp::PartialEqSpecImpl for RpcError {
    open spec fn obeys_eq_spec() -> bool {
        true
    }

    open spec fn eq_spec(&self, o: &RpcError) -> bool {
        self.same_as(o)
    }
}

} // verus!
