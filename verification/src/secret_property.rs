use vstd::prelude::*;

use crate::errors::{error_message, Error};
use crate::models::PropertyEvaluationResult;
use crate::property_snapshot::{property_evaluation, PropertySnapshot};
use crate::segment_evaluation::Entity;
use crate::value::Value;

verus! {

/// A store of secrets, implemented by users of the library.
pub trait SecretManager {
    /// Whether `r` is an answer of the manager to a request for the secret
    /// with the given id. A manager that does not describe its answers (as
    /// the function below does) admits every answer.
    open spec fn answers_secret(&self, secret_id: Seq<char>, r: Result<String, Error>) -> bool {
        true
    }

    /// Fetches the secret value for the given secret identifier.
    fn get_secret(&self, secret_id: &str) -> (r: Result<String, Error>)
        ensures
            self.answers_secret(secret_id@, r),
    ;
}

/// Whether the manager was asked for the secret id that the evaluated
/// property holds, if it holds one, and answered `fetched`.
pub open spec fn asked_for_secret<M: SecretManager>(
    manager: M,
    evaluated: Result<PropertyEvaluationResult, Error>,
    fetched: Result<String, Error>,
) -> bool {
    match evaluated {
        Ok(res) => match secret_id_of(res.value) {
            Some(id) => manager.answers_secret(id@, fetched),
            None => true,
        },
        Err(_) => true,
    }
}

/// A property whose value references a secret.
#[derive(Debug)]
pub struct SecretPropertySnapshot {
    pub property: PropertySnapshot,
    pub property_id: String,
}

/// The secret id held by an evaluated property value: a non-empty string.
pub open spec fn secret_id_of(v: Value) -> Option<String> {
    match v {
        Value::String(s) => if s@.len() > 0 { Some(s) } else { None },
        _ => None,
    }
}

/// Whether `r` is what resolving a secret gives, once the property was
/// evaluated to `evaluated` and, where a secret id came out, the manager
/// answered `fetched`.
pub open spec fn secret_result(
    property_id: String,
    evaluated: Result<PropertyEvaluationResult, Error>,
    fetched: Result<String, Error>,
    r: Result<String, Error>,
) -> bool {
    match evaluated {
        Err(e) => r == Err::<String, Error>(e),
        Ok(res) => match secret_id_of(res.value) {
            None => r == Err::<String, Error>(Error::SecretReferenceIdMissing { property_id }),
            Some(_) => fetched_result(property_id, fetched, r),
        },
    }
}

/// An evaluation result without the position of the matched segment.
pub open spec fn without_segment(full: Result<(PropertyEvaluationResult, Option<usize>), Error>) -> Result<PropertyEvaluationResult, Error> {
    match full {
        Ok((res, _)) => Ok(res),
        Err(e) => Err(e),
    }
}

/// Whether `r` is the result of a lookup whose manager answered `fetched`.
pub open spec fn fetched_result(property_id: String, fetched: Result<String, Error>, r: Result<String, Error>) -> bool {
    match fetched {
        Ok(s) => r == Ok::<String, Error>(s),
        Err(e) => r matches Err(Error::SecretProviderError { property_id: p, message })
            && p == property_id && message@ == error_message(e),
    }
}

impl SecretPropertySnapshot {
    pub fn new(property: PropertySnapshot, property_id: String) -> (r: Self)
        ensures
            r.property == property,
            r.property_id == property_id,
    {
        SecretPropertySnapshot { property, property_id }
    }

    /// Turns the answer of the secret manager into the result of a lookup.
    pub fn resolve_fetched(&self, fetched: Result<String, Error>) -> (r: Result<String, Error>)
        ensures
            fetched_result(self.property_id, fetched, r),
    {
        match fetched {
            Ok(s) => Ok(s),
            Err(e) => Err(Error::SecretProviderError { property_id: self.property_id.clone(), message: e.message() }),
        }
    }

    /// Evaluates the property for the entity and fetches the secret whose id
    /// it gives from the secret manager.
    pub fn get_current_value<E: Entity, M: SecretManager>(&self, entity: &E, secret_manager: &M) -> (r: Result<String, Error>)
        ensures
            exists|attrs: Seq<(String, Value)>, full: Result<(PropertyEvaluationResult, Option<usize>), Error>, fetched: Result<String, Error>|
                entity.gives_attributes(attrs) && #[trigger] property_evaluation(self.property, attrs, full)
                    && asked_for_secret(*secret_manager, without_segment(full), fetched)
                    && #[trigger] secret_result(self.property_id, without_segment(full), fetched, r),
    {
        let attrs = entity.get_attributes();
        let full = self.property.evaluate_property_for_entity(attrs.as_slice());
        let ghost g = full;
        let ghost mut fetched_g: Result<String, Error> = Err(Error::MismatchType);
        let r = match full {
            Err(e) => Err(e),
            Ok((res, _)) => {
                let id = match &res.value {
                    Value::String(s) => if s.unicode_len() > 0 { Some(s.clone()) } else { None },
                    _ => None,
                };
                match id {
                    None => Err(Error::SecretReferenceIdMissing { property_id: self.property_id.clone() }),
                    Some(secret_id) => {
                        let fetched = secret_manager.get_secret(secret_id.as_str());
                        proof {
                            fetched_g = fetched;
                        }
                        self.resolve_fetched(fetched)
                    },
                }
            },
        };
        assert(property_evaluation(self.property, attrs@, g) && asked_for_secret(*secret_manager, without_segment(g), fetched_g)
            && secret_result(self.property_id, without_segment(g), fetched_g, r));
        r
    }

    /// The name of the property.
    pub fn get_property_name(&self) -> (r: String)
        ensures
            r == self.property.name,
    {
        self.property.get_property_name()
    }

    /// The id of the property this secret reference belongs to.
    pub fn get_property_id(&self) -> (r: &str)
        ensures
            r@ == self.property_id@,
    {
        self.property_id.as_str()
    }
}

} // verus!
