//! Field-level validation of an order document, as applied by create.
use vstd::prelude::*;

use crate::model::{Order, OrderView};

verus! {

/// The field an accepted document may violate a rule on.
#[derive(Clone, Copy, Debug, PartialEq, Eq, Structural)]
pub enum FieldPath {
    OrderUid,
    DeliveryName,
    DeliveryEmail,
}

/// The rule a field may violate.
#[derive(Clone, Copy, Debug, PartialEq, Eq, Structural)]
pub enum ValidationRule {
    TooShort,
    InvalidEmail,
    MissingField,
    OutOfRange,
}

/// One violated rule on one field.
#[derive(Clone, Copy, Debug, PartialEq, Eq, Structural)]
pub struct Violation {
    pub field: FieldPath,
    pub rule: ValidationRule,
}

/// Verdict of the external email check on a string's characters.
pub uninterp spec fn email_ok(s: Seq<char>) -> bool;

/// Relies on the validator crate's `ValidateEmail` for `&str`: whether a
/// string is a well-formed email address, a function of its characters alone.
#[verifier::external_body]
fn check_email(s: &str) -> (r: bool)
    ensures
        r == email_ok(s@),
{
    validator::ValidateEmail::validate_email(&s)
}

/// The violations of a document, in a fixed order of fields.
pub open spec fn spec_violations(o: OrderView) -> Seq<Violation> {
    let uid = if o.order_uid.len() == 0 {
        seq![Violation { field: FieldPath::OrderUid, rule: ValidationRule::TooShort }]
    } else {
        Seq::<Violation>::empty()
    };
    let name = if o.delivery.name.len() == 0 {
        seq![Violation { field: FieldPath::DeliveryName, rule: ValidationRule::TooShort }]
    } else {
        Seq::<Violation>::empty()
    };
    let email = if !email_ok(o.delivery.email) {
        seq![Violation { field: FieldPath::DeliveryEmail, rule: ValidationRule::InvalidEmail }]
    } else {
        Seq::<Violation>::empty()
    };
    uid + name + email
}

/// A document create accepts: a non-empty `order_uid`, a non-empty
/// `delivery.name`, and a well-formed `delivery.email`.
pub open spec fn valid_order(o: OrderView) -> bool {
    &&& o.order_uid.len() > 0
    &&& o.delivery.name.len() > 0
    &&& email_ok(o.delivery.email)
}

/// A document is valid exactly when it has no violations.
pub proof fn lemma_valid_no_violations(o: OrderView)
    ensures
        valid_order(o) <==> spec_violations(o).len() == 0,
{
}

/// Checks the create rules, returning the exact set of violated fields.
pub fn validate_order(o: &Order) -> (r: Result<(), Vec<Violation>>)
    ensures
        match r {
            Ok(()) => valid_order(o@),
            Err(v) => {
                &&& !valid_order(o@)
                &&& v@ == spec_violations(o@)
            },
        },
{
    let mut v: Vec<Violation> = Vec::new();
    if o.order_uid.as_str().unicode_len() == 0 {
        v.push(Violation { field: FieldPath::OrderUid, rule: ValidationRule::TooShort });
    }
    if o.delivery.name.as_str().unicode_len() == 0 {
        v.push(Violation { field: FieldPath::DeliveryName, rule: ValidationRule::TooShort });
    }
    if !check_email(o.delivery.email.as_str()) {
        v.push(Violation { field: FieldPath::DeliveryEmail, rule: ValidationRule::InvalidEmail });
    }
    if v.len() == 0 {
        Ok(())
    } else {
        proof {
            assert(v@ =~= spec_violations(o@));
        }
        Err(v)
    }
}

} // verus!
