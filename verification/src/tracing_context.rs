//! Correlation ids: labels that tie the records of one chain of work
//! together.

use vstd::prelude::*;
use vstd::string::StringExecFns;
use crate::utils::text::decimal_string;
use crate::utils::text::is_decimal_digit;
use crate::utils::text::lemma_decimal_is_digits;
use crate::utils::text::lemma_decimal_is_injective;
use crate::utils::text::spec_decimal;

verus! {

/// The text of the id made of a time and a sequence number: the two decimal
/// numerals, joined by a hyphen.
pub open spec fn spec_correlation_text(timestamp_millis: u64, sequence: u64) -> Seq<char> {
    spec_decimal(timestamp_millis as nat) + "-"@ + spec_decimal(sequence as nat)
}

/// Ids made of different times or different sequence numbers are different
/// ids: an id is made of one time and of one sequence number only.
pub proof fn lemma_correlation_text_is_injective(t1: u64, s1: u64, t2: u64, s2: u64)
    requires
        spec_correlation_text(t1, s1) == spec_correlation_text(t2, s2),
    ensures
        t1 == t2,
        s1 == s2,
{
    let a = spec_decimal(t1 as nat);
    let b = spec_decimal(t2 as nat);
    let x = spec_decimal(s1 as nat);
    let y = spec_decimal(s2 as nat);
    let left = spec_correlation_text(t1, s1);
    let right = spec_correlation_text(t2, s2);
    reveal_strlit("-");
    assert("-"@.len() == 1);
    let hyphen = "-"@[0];
    assert(hyphen == '-');
    lemma_decimal_is_digits(t1 as nat);
    lemma_decimal_is_digits(t2 as nat);
    assert(left.len() == a.len() + 1 + x.len());
    assert(right.len() == b.len() + 1 + y.len());
    assert(left[a.len() as int] == hyphen);
    assert(right[b.len() as int] == hyphen);
    if a.len() < b.len() {
        assert(right[a.len() as int] == b[a.len() as int]);
        assert(is_decimal_digit(b[a.len() as int]));
    } else if b.len() < a.len() {
        assert(left[b.len() as int] == a[b.len() as int]);
        assert(is_decimal_digit(a[b.len() as int]));
    } else {
        assert(a =~= left.subrange(0, a.len() as int));
        assert(b =~= right.subrange(0, b.len() as int));
        assert(x =~= left.subrange(a.len() as int + 1, left.len() as int));
        assert(y =~= right.subrange(b.len() as int + 1, right.len() as int));
        lemma_decimal_is_injective(t1 as nat, t2 as nat);
        lemma_decimal_is_injective(s1 as nat, s2 as nat);
    }
}

/// A label that identifies one chain of work.
#[derive(Debug, Clone, PartialEq, Eq, Hash)]
pub struct CorrelationId(String);

impl View for CorrelationId {
    type V = Seq<char>;

    closed spec fn view(&self) -> Seq<char> {
        self.0@
    }
}

impl CorrelationId {
    /// The id made of a time in milliseconds and a sequence number.
    pub fn new(timestamp_millis: u64, sequence: u64) -> (id: Self)
        ensures
            id@ == spec_correlation_text(timestamp_millis, sequence),
    {
        let text = decimal_string(timestamp_millis).concat("-").concat(
            decimal_string(sequence).as_str(),
        );
        CorrelationId(text)
    }

    /// The id that was received as `id`.
    pub fn from_string(id: String) -> (c: Self)
        ensures
            c@ == id@,
    {
        CorrelationId(id)
    }

    /// The text of the id.
    pub fn as_str(&self) -> (s: &str)
        ensures
            s@ == self@,
    {
        self.0.as_str()
    }

    /// The text of the id, the id given up.
    pub fn into_string(self) -> (s: String)
        ensures
            s@ == self@,
    {
        self.0
    }
}

/// A correlation id, and the operation it is used for where one was named.
#[derive(Debug, Clone)]
pub struct TracingContext {
    pub correlation_id: CorrelationId,
    pub operation: Option<String>,
}

/// Mathematical content of a `TracingContext`.
pub struct TracingContextView {
    pub correlation_id: Seq<char>,
    pub operation: Option<Seq<char>>,
}

impl View for TracingContext {
    type V = TracingContextView;

    open spec fn view(&self) -> TracingContextView {
        TracingContextView {
            correlation_id: self.correlation_id@,
            operation: match self.operation {
                Some(o) => Some(o@),
                None => None,
            },
        }
    }
}

impl TracingContext {
    /// A context with a fresh id, made of a time in milliseconds and a
    /// sequence number.
    pub fn new(timestamp_millis: u64, sequence: u64) -> (c: Self)
        ensures
            c@ == (TracingContextView {
                correlation_id: spec_correlation_text(timestamp_millis, sequence),
                operation: None,
            }),
    {
        TracingContext {
            correlation_id: CorrelationId::new(timestamp_millis, sequence),
            operation: None,
        }
    }

    /// A context with the id `correlation_id`.
    pub fn with_correlation_id(correlation_id: CorrelationId) -> (c: Self)
        ensures
            c@ == (TracingContextView { correlation_id: correlation_id@, operation: None }),
    {
        TracingContext { correlation_id, operation: None }
    }

    /// A context for the operation `operation`, under the same id.
    pub fn child_context(&self, operation: &str) -> (c: Self)
        ensures
            c@ == (TracingContextView {
                correlation_id: self@.correlation_id,
                operation: Some(operation@),
            }),
    {
        TracingContext {
            correlation_id: CorrelationId::from_string(
                String::from_str(self.correlation_id.as_str()),
            ),
            operation: Some(String::from_str(operation)),
        }
    }

    /// Runs `f` under this context and hands its result back.
    pub fn with_span<F: FnOnce() -> R, R>(&self, f: F) -> (r: R)
        requires
            f.requires(()),
        ensures
            f.ensures((), r),
    {
        f()
    }
}

/// What can carry a tracing context.
pub trait WithTracingContext {
    /// The context carried, if any.
    fn get_tracing_context(&self) -> Option<&TracingContext>;

    /// Carries `context` from now on.
    fn set_tracing_context(&mut self, context: TracingContext);
}

/// What can record a correlation id and named fields with its records.
pub trait TracingExt {
    /// Records the correlation id.
    fn with_correlation_id(&self, correlation_id: &CorrelationId) -> &Self;

    /// Records the fields, each a name and a value.
    fn with_event_fields(&self, fields: &[(&str, &str)]) -> &Self;
}

} // verus!
