use vstd::prelude::*;
use crate::error::EngineError;

verus! {

/// How a module file yields its factory once its source has been evaluated.
#[derive(PartialEq, Eq, Structural, Clone, Copy, Debug)]
pub enum ExportStrategy {
    /// The evaluated value is the factory.
    DirectValue,
    /// The evaluated value is constructed once, with no arguments, against
    /// the global object; the result is the factory.
    ConstructThenUse,
}

impl ExportStrategy {
    /// Whether the evaluated value has to be constructed before use.
    pub fn constructs_first(&self) -> (r: bool)
        ensures
            r == (*self == ExportStrategy::ConstructThenUse),
    {
        match self {
            ExportStrategy::DirectValue => false,
            ExportStrategy::ConstructThenUse => true,
        }
    }
}

pub open spec fn not_a_function() -> Seq<char> {
    seq!['N', 'o', 't', ' ', 'a', ' ', 'f', 'u', 'n', 'c', 't', 'i', 'o', 'n']
}

/// The verdict on a module once the engine has parsed it and produced its
/// candidate factory: a parse error is reported with the engine's message,
/// and a candidate that cannot be constructed is rejected.
pub fn factory_outcome(parsed: Result<(), String>, constructible: bool) -> (r: Result<
    (),
    EngineError,
>)
    ensures
        parsed matches Err(m) ==> (r matches Err(EngineError::ScriptCompilation(s)) && s@ == m@),
        parsed is Ok && constructible ==> r is Ok,
        parsed is Ok && !constructible ==> (r matches Err(EngineError::ScriptCompilation(s))
            && s@ == not_a_function()),
{
    match parsed {
        Err(m) => Err(EngineError::ScriptCompilation(m)),
        Ok(()) => {
            if constructible {
                Ok(())
            } else {
                let m = String::from_str("Not a function");
                proof {
                    reveal_strlit("Not a function");
                }
                assert(m@ =~= not_a_function());
                Err(EngineError::ScriptCompilation(m))
            }
        },
    }
}

/// `new <path>()`, the expression that constructs a loaded factory.
pub open spec fn construction_of(path: Seq<char>) -> Seq<char> {
    seq!['n', 'e', 'w', ' '] + path + seq!['(', ')']
}

/// The script expression that constructs the factory at `path`.
pub fn construction_expression(path: &str) -> (r: String)
    ensures
        r@ == construction_of(path@),
{
    let mut s = String::from_str("new ");
    s.append(path);
    s.append("()");
    proof {
        reveal_strlit("new ");
        reveal_strlit("()");
    }
    assert(s@ =~= construction_of(path@));
    s
}

/// A live script object and its `update` hook, resolved once at construction.
pub struct Script<O, F> {
    pub object: O,
    pub update: Option<F>,
}

impl<O, F> Script<O, F> {
    /// Wraps a constructed object. `update` is the object's `update` property
    /// when that property holds something callable, and nothing otherwise.
    pub fn new(object: O, update: Option<F>) -> (r: Self)
        ensures
            r.object == object,
            r.update == update,
    {
        Script { object, update }
    }

    /// The hook to call for one frame; without a hook there is nothing to
    /// call, and driving the instance changes nothing.
    pub fn drive(&self) -> (r: Option<&F>)
        ensures
            r is None <==> self.update is None,
            r matches Some(f) ==> self.update == Some(*f),
    {
        match &self.update {
            Some(f) => Some(f),
            None => None,
        }
    }
}

} // verus!
