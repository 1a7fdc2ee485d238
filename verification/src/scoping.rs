//! The scoping guarantee's decision rule.
//!
//! An external code-generation collaborator makes the discipline hold: it
//! injects, as the first statement of a function, the creation of exactly one
//! pinned context, and keeps the function from being inlined so the captured
//! stack pointer belongs to that function's own frame.  Before generating
//! anything it must reject functions whose qualifiers the mechanism cannot
//! support; that acceptance rule is the one recoverable, reportable error
//! path of the whole system, and it is verified here.

use vstd::prelude::*;

verus! {

/// A function qualifier the scoped-context mechanism rejects at compile
/// time, named so the diagnostic can point at it.
#[derive(Debug, PartialEq, Eq, Structural)]
pub enum QualifierError {
    /// The function is marked asynchronous.
    AsyncFunction,
    /// The function is marked compile-time-evaluable.
    CompileTimeEvaluable,
}

impl QualifierError {
    /// The diagnostic text for the offending qualifier.
    pub fn diagnostic(&self) -> (msg: &'static str)
        ensures
            *self == QualifierError::AsyncFunction ==> msg@ == "not supported in an async fn"@,
            *self == QualifierError::CompileTimeEvaluable ==> msg@
                == "not supported in a const fn"@,
    {
        match self {
            QualifierError::AsyncFunction => "not supported in an async fn",
            QualifierError::CompileTimeEvaluable => "not supported in a const fn",
        }
    }
}

/// Decide whether a context can be injected into a function with the given
/// qualifiers: a function is accepted exactly when it is neither asynchronous
/// nor compile-time-evaluable, and a rejected function's error names the
/// offending qualifier, the asynchronous one first.
pub fn check_function_qualifiers(is_async: bool, is_const: bool) -> (decision: Result<
    (),
    QualifierError,
>)
    ensures
        decision is Ok <==> !is_async && !is_const,
        is_async ==> decision == Err::<(), QualifierError>(QualifierError::AsyncFunction),
        !is_async && is_const ==> decision == Err::<(), QualifierError>(
            QualifierError::CompileTimeEvaluable,
        ),
{
    if is_async {
        Err(QualifierError::AsyncFunction)
    } else if is_const {
        Err(QualifierError::CompileTimeEvaluable)
    } else {
        Ok(())
    }
}

} // verus!
