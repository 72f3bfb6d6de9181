use vstd::prelude::*;

verus! {

/// What made an operation fail.
#[derive(Debug)]
pub enum Cause<E> {
    /// The plotting library, or the runtime around it, raised this exception.
    Raised(E),
    /// The script holds a NUL character, which no source text may hold. It
    /// was not run.
    NulInScript,
}

/// Why an operation of a backend failed, over the exceptions `E` of its
/// runtime.
#[derive(Debug)]
pub enum BridgeError<E> {
    /// The plotting namespace could not be imported, for the reason given.
    /// No backend exists after this error.
    Initialization(E),
    /// A script or a forwarded call failed. The backend stays usable.
    Execution(Cause<E>),
}

/// What an operation reports once the runtime has answered: the answer
/// itself, or `Execution` with the very exception that was raised.
pub fn execution_result<T, E>(outcome: Result<T, E>) -> (res: Result<T, BridgeError<E>>)
    ensures
        outcome matches Ok(answer) ==> (res matches Ok(kept) && kept == answer),
        outcome matches Err(raised) ==> (res matches Err(e) && e == BridgeError::Execution(
            Cause::Raised(raised),
        )),
{
    match outcome {
        Ok(answer) => Ok(answer),
        Err(raised) => Err(BridgeError::Execution(Cause::Raised(raised))),
    }
}

/// What opening a session reports once the import has answered: the module,
/// or `Initialization` with the very exception that was raised.
pub fn initialization_result<T, E>(outcome: Result<T, E>) -> (res: Result<T, BridgeError<E>>)
    ensures
        outcome matches Ok(answer) ==> (res matches Ok(kept) && kept == answer),
        outcome matches Err(raised) ==> (res matches Err(e) && e == BridgeError::Initialization(
            raised,
        )),
{
    match outcome {
        Ok(answer) => Ok(answer),
        Err(raised) => Err(BridgeError::Initialization(raised)),
    }
}

} // verus!
