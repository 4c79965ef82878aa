//! Errors enriched with the context in which they happened.
use vstd::prelude::*;

use super::{YuhaError, category_name};
use crate::keyed::KeyedList;

verus! {

/// What `format!("{:?}", s)` gives for a string: the string quoted, with escapes.
pub uninterp spec fn debug_str(s: Seq<char>) -> Seq<char>;

/// Renders a string with `Debug`; the contract ties the result to the name `debug_str` of its input.
#[verifier::external_body]
fn debug_quote(s: &str) -> (r: String)
    ensures
        r@ == debug_str(s@),
{
    format!("{:?}", s)
}

/// The rendering of key-value pairs in the style of a map's `Debug` output.
pub open spec fn pairs_text(keys: Seq<Seq<char>>, values: Seq<String>) -> Seq<char>
    decreases keys.len(),
{
    if keys.len() == 0 {
        Seq::empty()
    } else if keys.len() == 1 {
        debug_str(keys[0]) + ": "@ + debug_str(values[0]@)
    } else {
        pairs_text(keys.drop_last(), values.drop_last()) + ", "@ + debug_str(keys.last()) + ": "@
            + debug_str(values[keys.len() - 1]@)
    }
}

/// The context of an error: what was being done, where, and any further facts.
#[derive(Debug)]
pub struct ErrorContext {
    /// The operation under way.
    pub operation: String,
    /// The component in which the error happened.
    pub component: String,
    /// Further facts, by name.
    pub metadata: KeyedList<String, String>,
    /// When the context was made, in milliseconds since the Unix epoch.
    pub timestamp: u64,
}

impl ErrorContext {
    /// A context with no further facts, made at a given time.
    pub fn new_at(operation: &str, component: &str, timestamp: u64) -> (r: Self)
        ensures
            r.operation@ == operation@,
            r.component@ == component@,
            r.metadata@ == Map::<Seq<char>, String>::empty(),
            r.metadata.key_seq().len() == 0,
            r.timestamp == timestamp,
    {
        ErrorContext {
            operation: String::from_str(operation),
            component: String::from_str(component),
            metadata: KeyedList::new(),
            timestamp,
        }
    }

    /// A context with no further facts, made now.
    pub fn new(operation: &str, component: &str) -> (r: Self)
        ensures
            r.operation@ == operation@,
            r.component@ == component@,
            r.metadata@ == Map::<Seq<char>, String>::empty(),
            r.metadata.key_seq().len() == 0,
    {
        Self::new_at(operation, component, crate::clock::now_millis())
    }

    /// The context with one more fact; a fact of the same name is replaced.
    pub fn with_metadata(self, key: &str, value: &str) -> (r: Self)
        ensures
            r.metadata@ == self.metadata@.insert(key@, r.metadata@[key@]),
            r.metadata@[key@]@ == value@,
            r.operation == self.operation,
            r.component == self.component,
            r.timestamp == self.timestamp,
    {
        let mut c = self;
        let v = String::from_str(value);
        let ghost gv = v;
        c.metadata.insert(String::from_str(key), v);
        c
    }

    /// The context with the session's id as fact `session_id`.
    pub fn with_session_id(self, session_id: &str) -> (r: Self)
        ensures
            r.metadata@ == self.metadata@.insert("session_id"@, r.metadata@["session_id"@]),
            r.metadata@["session_id"@]@ == session_id@,
            r.operation == self.operation,
            r.component == self.component,
    {
        self.with_metadata("session_id", session_id)
    }

    /// The context with the transport type as fact `transport_type`.
    pub fn with_transport(self, transport_type: &str) -> (r: Self)
        ensures
            r.metadata@ == self.metadata@.insert("transport_type"@, r.metadata@["transport_type"@]),
            r.metadata@["transport_type"@]@ == transport_type@,
            r.operation == self.operation,
            r.component == self.component,
    {
        self.with_metadata("transport_type", transport_type)
    }

    /// The context with the host as fact `host`.
    pub fn with_host(self, host: &str) -> (r: Self)
        ensures
            r.metadata@ == self.metadata@.insert("host"@, r.metadata@["host"@]),
            r.metadata@["host"@]@ == host@,
            r.operation == self.operation,
            r.component == self.component,
    {
        self.with_metadata("host", host)
    }

    /// Renders the facts as `{"key": "value", ...}`, in the order in which they were first given.
    pub fn metadata_text(&self) -> (r: String)
        ensures
            r@ == "{"@ + pairs_text(self.metadata.key_seq(), self.metadata.value_seq()) + "}"@,
    {
        let n = self.metadata.len();
        let mut s = String::new();
        let mut i: usize = 0;
        while i < n
            invariant
                n == self.metadata.key_seq().len(),
                n == self.metadata.value_seq().len(),
                i <= n,
                s@ == pairs_text(
                    self.metadata.key_seq().take(i as int),
                    self.metadata.value_seq().take(i as int),
                ),
            decreases n - i,
        {
            let k = debug_quote(self.metadata.key_at(i).as_str());
            let v = debug_quote(self.metadata.value_at(i).as_str());
            let ghost ks = self.metadata.key_seq().take(i + 1);
            let ghost vs = self.metadata.value_seq().take(i + 1);
            proof {
                assert(ks.drop_last() =~= self.metadata.key_seq().take(i as int));
                assert(vs.drop_last() =~= self.metadata.value_seq().take(i as int));
            }
            if i > 0 {
                s.append(", ");
            }
            s.append(k.as_str());
            s.append(": ");
            s.append(v.as_str());
            i = i + 1;
        }
        proof {
            assert(self.metadata.key_seq().take(n as int) =~= self.metadata.key_seq());
            assert(self.metadata.value_seq().take(n as int) =~= self.metadata.value_seq());
        }
        let mut out = String::from_str("{");
        out.append(s.as_str());
        out.append("}");
        out
    }
}

/// An error together with the context in which it happened.
#[derive(Debug)]
pub struct ContextualError {
    /// The error.
    pub error: YuhaError,
    /// Its context.
    pub context: ErrorContext,
}

impl ContextualError {
    /// Pairs an error with its context.
    pub fn new(error: YuhaError, context: ErrorContext) -> (r: Self)
        ensures
            r.error == error,
            r.context == context,
    {
        ContextualError { error, context }
    }

    /// The error without its context.
    pub fn into_inner(self) -> (r: YuhaError)
        ensures
            r == self.error,
    {
        self.error
    }

    /// Renders `[component:operation] category: message (metadata: {...})`.
    pub fn with_context(self) -> (r: String)
        ensures
            !(self.error is Io) ==> r@ == "["@ + self.context.component@ + ":"@
                + self.context.operation@ + "] "@ + category_name(&self.error) + ": "@
                + self.error.text() + " (metadata: "@ + "{"@ + pairs_text(
                self.context.metadata.key_seq(),
                self.context.metadata.value_seq(),
            ) + "}"@ + ")"@,
    {
        let meta = self.context.metadata_text();
        let msg = self.error.to_string();
        let mut s = String::from_str("[");
        s.append(self.context.component.as_str());
        s.append(":");
        s.append(self.context.operation.as_str());
        s.append("] ");
        s.append(self.error.category());
        s.append(": ");
        s.append(msg.as_str());
        s.append(" (metadata: ");
        s.append(meta.as_str());
        s.append(")");
        s
    }
}

/// Attaches context to an error.
pub trait ErrorContextExt: Sized {
    /// The error with the given context.
    fn with_context(self, context: ErrorContext) -> ContextualError;

    /// The error with a context for an operation in a component.
    fn with_operation(self, operation: &str, component: &str) -> ContextualError;
}

impl ErrorContextExt for YuhaError {
    fn with_context(self, context: ErrorContext) -> (r: ContextualError)
        ensures
            r.error == self,
            r.context == context,
    {
        ContextualError::new(self, context)
    }

    fn with_operation(self, operation: &str, component: &str) -> (r: ContextualError)
        ensures
            r.error == self,
            r.context.operation@ == operation@,
            r.context.component@ == component@,
            r.context.metadata@ == Map::<Seq<char>, String>::empty(),
    {
        let context = ErrorContext::new(operation, component);
        ContextualError::new(self, context)
    }
}

/// Attaches context to the error of a result.
pub trait ResultContextExt<T>: Sized {
    /// The result with the given context attached to its error.
    fn with_context(self, context: ErrorContext) -> Result<T, ContextualError>;

    /// The result with a context for an operation in a component attached to its error.
    fn with_operation(self, operation: &str, component: &str) -> Result<T, ContextualError>;
}

impl<T> ResultContextExt<T> for Result<T, YuhaError> {
    fn with_context(self, context: ErrorContext) -> (r: Result<T, ContextualError>)
        ensures
            self matches Ok(v) ==> r == Ok::<T, ContextualError>(v),
            self matches Err(e) ==> r matches Err(c) && c.error == e && c.context == context,
    {
        match self {
            Ok(v) => Ok(v),
            Err(e) => Err(ContextualError::new(e, context)),
        }
    }

    fn with_operation(self, operation: &str, component: &str) -> (r: Result<T, ContextualError>)
        ensures
            self matches Ok(v) ==> r == Ok::<T, ContextualError>(v),
            self matches Err(e) ==> r matches Err(c) && c.error == e && c.context.operation@
                == operation@ && c.context.component@ == component@,
    {
        match self {
            Ok(v) => Ok(v),
            Err(e) => Err(ContextualError::new(e, ErrorContext::new(operation, component))),
        }
    }
}

} // verus!
