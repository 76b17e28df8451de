//! The condition interface: a check yields a verdict or an error, and every
//! error says whether it may be passed over when alternatives remain.

pub mod config_gz;
pub mod has_kconfig;

pub use has_kconfig::HasKconfig;

use vstd::prelude::*;

verus! {

/// What every error of a condition check must offer.
///
/// An ignorable error means that the check could not be carried out because
/// the means of introspection is itself unavailable; any other error is a
/// genuine failure and has to be surfaced.
pub trait ConditionError {
    /// Whether it's okay to ignore this error if evaluating an Or.
    fn is_ignorable(&self) -> bool;

    /// The human-readable message of the error.
    fn message(&self) -> String;
}

/// A check whose error type is known at the call site.
pub trait Condition {
    type Err: ConditionError + Send + Sync + 'static;

    fn check(&self) -> Result<bool, Self::Err>;
}

/// An error of any condition, reduced to the shared capability: its
/// classification and its message.
#[derive(Debug)]
pub struct DynConditionError {
    ignorable: bool,
    message: String,
}

impl DynConditionError {
    /// The classification that the error keeps.
    pub closed spec fn ignorable(&self) -> bool {
        self.ignorable
    }

    /// The message that the error keeps.
    pub closed spec fn message_text(&self) -> Seq<char> {
        self.message@
    }

    /// Whether this error stands for `error`: its classification and its
    /// message are what `error` itself gives.
    pub open spec fn stands_for<E: ConditionError>(&self, error: E) -> bool {
        &&& call_ensures(E::is_ignorable, (&error,), self.ignorable())
        &&& exists|message: String|
            message@ == self.message_text() && #[trigger] call_ensures(
                E::message,
                (&error,),
                message,
            )
    }

    /// Wraps a concrete error, keeping its classification and its message.
    pub fn wrap<E: ConditionError>(error: E) -> (wrapped: Self)
        ensures
            wrapped.stands_for(error),
    {
        let ignorable = error.is_ignorable();
        let message = error.message();
        DynConditionError { ignorable, message }
    }
}

impl ConditionError for DynConditionError {
    fn is_ignorable(&self) -> (r: bool)
        ensures
            r == self.ignorable(),
    {
        self.ignorable
    }

    fn message(&self) -> (r: String)
        ensures
            r@ == self.message_text(),
    {
        self.message.clone()
    }
}

/// A check whose error is erased to [`DynConditionError`], so that conditions
/// of different types can be held and invoked uniformly.
pub trait DynCondition {
    /// Whether `result` is a result of the check behind this one, with
    /// nothing changed but the type of the error.
    spec fn is_erased_check(&self, result: Result<bool, DynConditionError>) -> bool;

    fn check(&self) -> (r: Result<bool, DynConditionError>)
        ensures
            self.is_erased_check(r),
    ;
}

/// `erased` is `typed` with nothing changed but the type of the error: the
/// same verdict, or an error of the same classification and message.
pub open spec fn erases<E: ConditionError>(
    typed: Result<bool, E>,
    erased: Result<bool, DynConditionError>,
) -> bool {
    match typed {
        Ok(verdict) => erased is Ok && erased->Ok_0 == verdict,
        Err(error) => erased is Err && erased->Err_0.stands_for(error),
    }
}

/// Erases the error type of a check's result.
pub fn erase<E: ConditionError>(typed: Result<bool, E>) -> (erased: Result<bool, DynConditionError>)
    ensures
        erases(typed, erased),
{
    match typed {
        Ok(verdict) => Ok(verdict),
        Err(error) => Err(DynConditionError::wrap(error)),
    }
}

/// Every typed condition is an erased one: the adapter wraps the error and
/// changes nothing else.
impl<T> DynCondition for T where T: Condition, T::Err: ConditionError + Send + Sync + 'static {
    open spec fn is_erased_check(&self, result: Result<bool, DynConditionError>) -> bool {
        exists|typed: Result<bool, T::Err>|
            erases(typed, result) && #[trigger] call_ensures(
                <T as Condition>::check,
                (self,),
                typed,
            )
    }

    fn check(&self) -> (r: Result<bool, DynConditionError>) {
        let typed: Result<bool, T::Err> = Condition::check(self);
        erase(typed)
    }
}

} // verus!
