//! The native calls that the handle asks its embedder to make.
use vstd::prelude::*;

verus! {

/// Where the value of a property installation comes from.
#[derive(Clone, Copy, Debug, PartialEq, Eq, Structural)]
pub enum ValueSource {
    /// The value held by the handle at this index of its retained values.
    Retained(usize),
    /// The value handed to the property set itself, which the caller keeps alive.
    Given,
}

/// One call into the native layer.
#[derive(Clone, Debug, PartialEq, Eq)]
pub enum NativeCall {
    /// Create the process-wide application object.
    AppCreate,
    /// Enter the application's event loop; returns when the loop is stopped.
    AppExec,
    /// Ask the application's event loop to stop; does nothing if none runs.
    AppQuit,
    /// Release the application object.
    AppDelete,
    /// Create the application engine on the application object.
    EngineCreate,
    /// Have the engine load the UI source at this URL.
    EngineLoadUrl(String),
    /// Have the engine load this inline UI source.
    EngineLoadData(String),
    /// Fetch the engine's property-binding context.
    EngineContext,
    /// Install a value under this name on the context fetched last.
    ContextSetProperty(String, ValueSource),
    /// Release the application engine.
    EngineDelete,
}

/// The mathematical value of a [`NativeCall`].
pub ghost enum Call {
    AppCreate,
    AppExec,
    AppQuit,
    AppDelete,
    EngineCreate,
    EngineLoadUrl(Seq<char>),
    EngineLoadData(Seq<char>),
    EngineContext,
    ContextSetProperty(Seq<char>, ValueSource),
    EngineDelete,
}

impl View for NativeCall {
    type V = Call;

    open spec fn view(&self) -> Call {
        match self {
            NativeCall::AppCreate => Call::AppCreate,
            NativeCall::AppExec => Call::AppExec,
            NativeCall::AppQuit => Call::AppQuit,
            NativeCall::AppDelete => Call::AppDelete,
            NativeCall::EngineCreate => Call::EngineCreate,
            NativeCall::EngineLoadUrl(url) => Call::EngineLoadUrl(url@),
            NativeCall::EngineLoadData(text) => Call::EngineLoadData(text@),
            NativeCall::EngineContext => Call::EngineContext,
            NativeCall::ContextSetProperty(name, src) => Call::ContextSetProperty(name@, *src),
            NativeCall::EngineDelete => Call::EngineDelete,
        }
    }
}

/// The calls of a sequence of native calls, as values.
pub open spec fn calls_of(s: Seq<NativeCall>) -> Seq<Call> {
    s.map_values(|c: NativeCall| c@)
}

/// How many times `c` occurs in `s`.
pub open spec fn occurrences(s: Seq<Call>, c: Call) -> nat
    decreases s.len(),
{
    if s.len() == 0 {
        0
    } else {
        occurrences(s.drop_last(), c) + if s.last() == c {
            1nat
        } else {
            0nat
        }
    }
}

/// Appending `x` adds one occurrence of `x` and leaves the others as they were.
pub proof fn lemma_occurrences_push(s: Seq<Call>, x: Call, c: Call)
    ensures
        occurrences(s.push(x), c) == occurrences(s, c) + if x == c {
            1nat
        } else {
            0nat
        },
{
    assert(s.push(x).drop_last() =~= s);
}

} // verus!
