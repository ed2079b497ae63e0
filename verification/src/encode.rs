//! The bodies of the requests that create a payment or a refund.
//!
//! A body is a JSON object with one member for each field that holds a
//! value, under the name of the field in camel case. A field that holds no
//! value has no member: the provider tells a member that is `null` from one
//! that is not there.

use crate::client::{
    currency_name, slice_view, PaymentParams, PaymentParamsView, RefundParams, RefundParamsView,
};
use crate::json::{keys, lemma_object_view, member, Json, JsonView};
use vstd::prelude::*;
use vstd::string::*;

verus! {

/// `members` with one more member, a text.
pub open spec fn with_text(
    members: Seq<(Seq<char>, JsonView)>,
    name: Seq<char>,
    value: Seq<char>,
) -> Seq<(Seq<char>, JsonView)> {
    members.push((name, JsonView::String(value)))
}

/// `members` with one more member where there is a text to add, and as it
/// is where there is none: what has no value gets no member.
pub open spec fn with_optional(
    members: Seq<(Seq<char>, JsonView)>,
    name: Seq<char>,
    value: Option<Seq<char>>,
) -> Seq<(Seq<char>, JsonView)> {
    match value {
        Some(value) => with_text(members, name, value),
        None => members,
    }
}

/// The members of the JSON object that asks for a payment, in the order in
/// which they are written.
pub open spec fn payment_members(params: PaymentParamsView) -> Seq<(Seq<char>, JsonView)> {
    let members = Seq::empty();
    let members = with_optional(
        members,
        "payeePaymentReference"@,
        params.payee_payment_reference,
    );
    let members = with_optional(members, "payerAlias"@, params.payer_alias);
    let members = with_text(members, "payeeAlias"@, params.payee_alias);
    let members = members.push(("amount"@, JsonView::Number(params.amount)));
    let members = with_text(members, "currency"@, currency_name(params.currency));
    let members = with_optional(members, "message"@, params.message);
    with_text(members, "callbackUrl"@, params.callback_url)
}

/// The members of the JSON object that asks for a refund, in the order in
/// which they are written.
pub open spec fn refund_members(params: RefundParamsView) -> Seq<(Seq<char>, JsonView)> {
    let members = Seq::empty();
    let members = with_optional(
        members,
        "payerPaymentReference"@,
        params.payer_payment_reference,
    );
    let members = with_text(
        members,
        "originalPaymentReference"@,
        params.original_payment_reference,
    );
    let members = with_optional(members, "paymentReference"@, params.payment_reference);
    let members = with_text(members, "payerAlias"@, params.payer_alias);
    let members = with_text(members, "payeeAlias"@, params.payee_alias);
    let members = members.push(("amount"@, JsonView::Number(params.amount)));
    let members = with_text(members, "currency"@, currency_name(params.currency));
    let members = with_optional(members, "message"@, params.message);
    with_text(members, "callbackUrl"@, params.callback_url)
}

/// The models of the members of an object.
pub open spec fn members_view(members: Seq<(String, Json)>) -> Seq<(Seq<char>, JsonView)> {
    Seq::new(members.len(), |i: int| (members[i].0@, members[i].1@))
}

fn push_member(members: &mut Vec<(String, Json)>, name: &str, value: Json)
    ensures
        members_view(final(members)@) == members_view(old(members)@).push((name@, value@)),
{
    members.push((String::from_str(name), value));
    assert(members_view(members@) =~= members_view(old(members)@).push((name@, value@)));
}

fn push_text(members: &mut Vec<(String, Json)>, name: &str, value: &str)
    ensures
        members_view(final(members)@) == with_text(members_view(old(members)@), name@, value@),
{
    push_member(members, name, Json::String(String::from_str(value)));
}

fn push_optional(members: &mut Vec<(String, Json)>, name: &str, value: Option<&str>)
    ensures
        members_view(final(members)@) == with_optional(
            members_view(old(members)@),
            name@,
            slice_view(value),
        ),
{
    match value {
        Some(value) => push_text(members, name, value),
        None => {},
    }
}

fn object_of(members: Vec<(String, Json)>) -> (r: Json)
    ensures
        r@ == JsonView::Object(members_view(members@)),
{
    proof {
        lemma_object_view(members);
        assert(Json::Object(members)@->Object_0 =~= members_view(members@));
    }
    Json::Object(members)
}

impl<'a> PaymentParams<'a> {
    /// The JSON object that asks for the payment. A field that holds no
    /// value has no member in it.
    pub fn into_json(self) -> (r: Json)
        ensures
            r@ == JsonView::Object(payment_members(self@)),
    {
        let mut members: Vec<(String, Json)> = Vec::new();
        assert(members_view(members@) =~= Seq::empty());
        push_optional(&mut members, "payeePaymentReference", self.payee_payment_reference);
        push_optional(&mut members, "payerAlias", self.payer_alias);
        push_text(&mut members, "payeeAlias", self.payee_alias);
        push_member(&mut members, "amount", Json::Number(self.amount));
        push_text(&mut members, "currency", self.currency.name());
        push_optional(&mut members, "message", self.message);
        push_text(&mut members, "callbackUrl", self.callback_url);
        object_of(members)
    }
}

impl<'a> RefundParams<'a> {
    /// The JSON object that asks for the refund. A field that holds no
    /// value has no member in it.
    pub fn into_json(self) -> (r: Json)
        ensures
            r@ == JsonView::Object(refund_members(self@)),
    {
        let mut members: Vec<(String, Json)> = Vec::new();
        assert(members_view(members@) =~= Seq::empty());
        push_optional(&mut members, "payerPaymentReference", self.payer_payment_reference);
        push_text(&mut members, "originalPaymentReference", self.original_payment_reference);
        push_optional(&mut members, "paymentReference", self.payment_reference);
        push_text(&mut members, "payerAlias", self.payer_alias);
        push_text(&mut members, "payeeAlias", self.payee_alias);
        push_member(&mut members, "amount", Json::Number(self.amount));
        push_text(&mut members, "currency", self.currency.name());
        push_optional(&mut members, "message", self.message);
        push_text(&mut members, "callbackUrl", self.callback_url);
        object_of(members)
    }
}

/// The params of a payment with the merchant as the payee.
pub open spec fn with_payee(params: PaymentParamsView, merchant: Seq<char>) -> PaymentParamsView {
    PaymentParamsView { payee_alias: merchant, ..params }
}

/// The params of a refund with the merchant as the payer.
pub open spec fn with_payer(params: RefundParamsView, merchant: Seq<char>) -> RefundParamsView {
    RefundParamsView { payer_alias: merchant, ..params }
}

/// A text as a JSON value, where there is one.
pub open spec fn text_value(text: Option<Seq<char>>) -> Option<JsonView> {
    match text {
        Some(text) => Some(JsonView::String(text)),
        None => None,
    }
}

/// The value that the request for a payment gives to a key: for each field
/// that holds a value, that value under the field's name in camel case, and
/// nothing else.
pub open spec fn payment_value(params: PaymentParamsView, key: Seq<char>) -> Option<JsonView> {
    if key == "payeePaymentReference"@ {
        text_value(params.payee_payment_reference)
    } else if key == "payerAlias"@ {
        text_value(params.payer_alias)
    } else if key == "payeeAlias"@ {
        Some(JsonView::String(params.payee_alias))
    } else if key == "amount"@ {
        Some(JsonView::Number(params.amount))
    } else if key == "currency"@ {
        Some(JsonView::String(currency_name(params.currency)))
    } else if key == "message"@ {
        text_value(params.message)
    } else if key == "callbackUrl"@ {
        Some(JsonView::String(params.callback_url))
    } else {
        None
    }
}

/// The value that the request for a refund gives to a key: for each field
/// that holds a value, that value under the field's name in camel case, and
/// nothing else.
pub open spec fn refund_value(params: RefundParamsView, key: Seq<char>) -> Option<JsonView> {
    if key == "payerPaymentReference"@ {
        text_value(params.payer_payment_reference)
    } else if key == "originalPaymentReference"@ {
        Some(JsonView::String(params.original_payment_reference))
    } else if key == "paymentReference"@ {
        text_value(params.payment_reference)
    } else if key == "payerAlias"@ {
        Some(JsonView::String(params.payer_alias))
    } else if key == "payeeAlias"@ {
        Some(JsonView::String(params.payee_alias))
    } else if key == "amount"@ {
        Some(JsonView::Number(params.amount))
    } else if key == "currency"@ {
        Some(JsonView::String(currency_name(params.currency)))
    } else if key == "message"@ {
        text_value(params.message)
    } else if key == "callbackUrl"@ {
        Some(JsonView::String(params.callback_url))
    } else {
        None
    }
}

/// The keys that every request for a payment holds.
pub open spec fn payment_required_keys() -> Set<Seq<char>> {
    set!["payeeAlias"@, "amount"@, "currency"@, "callbackUrl"@]
}

/// The keys of the optional fields of a payment that hold a value.
pub open spec fn payment_optional_keys(params: PaymentParamsView) -> Set<Seq<char>> {
    Set::new(
        |key: Seq<char>|
            {
                ||| key == "payeePaymentReference"@ && params.payee_payment_reference is Some
                ||| key == "payerAlias"@ && params.payer_alias is Some
                ||| key == "message"@ && params.message is Some
            },
    )
}

/// The keys that every request for a refund holds.
pub open spec fn refund_required_keys() -> Set<Seq<char>> {
    set![
        "originalPaymentReference"@,
        "payerAlias"@,
        "payeeAlias"@,
        "amount"@,
        "currency"@,
        "callbackUrl"@,
    ]
}

/// The keys of the optional fields of a refund that hold a value.
pub open spec fn refund_optional_keys(params: RefundParamsView) -> Set<Seq<char>> {
    Set::new(
        |key: Seq<char>|
            {
                ||| key == "payerPaymentReference"@ && params.payer_payment_reference is Some
                ||| key == "paymentReference"@ && params.payment_reference is Some
                ||| key == "message"@ && params.message is Some
            },
    )
}

/// No two fields of a request go by the same name.
proof fn lemma_names_differ()
    ensures
        "payeePaymentReference"@.len() == 21,
        "payerPaymentReference"@.len() == 21,
        "originalPaymentReference"@.len() == 24,
        "paymentReference"@.len() == 16,
        "payerAlias"@.len() == 10,
        "payeeAlias"@.len() == 10,
        "amount"@.len() == 6,
        "currency"@.len() == 8,
        "message"@.len() == 7,
        "callbackUrl"@.len() == 11,
        "payerAlias"@ != "payeeAlias"@,
{
    reveal_strlit("payeePaymentReference");
    reveal_strlit("payerPaymentReference");
    reveal_strlit("originalPaymentReference");
    reveal_strlit("paymentReference");
    reveal_strlit("payerAlias");
    reveal_strlit("payeeAlias");
    reveal_strlit("amount");
    reveal_strlit("currency");
    reveal_strlit("message");
    reveal_strlit("callbackUrl");
    assert("payerAlias"@[4] != "payeeAlias"@[4]);
}

/// The last member with a key decides: adding a member gives its key that
/// member's value and leaves every other key as it was.
pub proof fn lemma_member_push(
    members: Seq<(Seq<char>, JsonView)>,
    name: Seq<char>,
    value: JsonView,
    key: Seq<char>,
)
    ensures
        member(members.push((name, value)), key) == if name == key {
            Some(value)
        } else {
            member(members, key)
        },
{
    assert(members.push((name, value)).drop_last() == members);
}

/// An optional member counts where it has a value, and changes nothing
/// where it has none.
pub proof fn lemma_member_optional(
    members: Seq<(Seq<char>, JsonView)>,
    name: Seq<char>,
    value: Option<Seq<char>>,
    key: Seq<char>,
)
    ensures
        member(with_optional(members, name, value), key) == if name == key && value is Some {
            text_value(value)
        } else {
            member(members, key)
        },
{
    if let Some(text) = value {
        lemma_member_push(members, name, JsonView::String(text), key);
    }
}

/// The request for a payment holds exactly the fields that hold a value,
/// each under its own name and with its own value: whatever the key, the
/// object gives it the value that [`payment_value`] names, and none where
/// that names none.
pub proof fn lemma_payment_members(params: PaymentParamsView, key: Seq<char>)
    ensures
        member(payment_members(params), key) == payment_value(params, key),
{
    lemma_names_differ();
    let m0 = Seq::<(Seq<char>, JsonView)>::empty();
    let m1 = with_optional(m0, "payeePaymentReference"@, params.payee_payment_reference);
    let m2 = with_optional(m1, "payerAlias"@, params.payer_alias);
    let m3 = with_text(m2, "payeeAlias"@, params.payee_alias);
    let m4 = m3.push(("amount"@, JsonView::Number(params.amount)));
    let m5 = with_text(m4, "currency"@, currency_name(params.currency));
    let m6 = with_optional(m5, "message"@, params.message);
    let m7 = with_text(m6, "callbackUrl"@, params.callback_url);
    assert(member(m0, key) is None);
    lemma_member_optional(m0, "payeePaymentReference"@, params.payee_payment_reference, key);
    lemma_member_optional(m1, "payerAlias"@, params.payer_alias, key);
    lemma_member_push(m2, "payeeAlias"@, JsonView::String(params.payee_alias), key);
    lemma_member_push(m3, "amount"@, JsonView::Number(params.amount), key);
    lemma_member_push(m4, "currency"@, JsonView::String(currency_name(params.currency)), key);
    lemma_member_optional(m5, "message"@, params.message, key);
    lemma_member_push(m6, "callbackUrl"@, JsonView::String(params.callback_url), key);
    assert(payment_members(params) == m7);
}

/// The request for a refund holds exactly the fields that hold a value,
/// each under its own name and with its own value: whatever the key, the
/// object gives it the value that [`refund_value`] names, and none where
/// that names none.
pub proof fn lemma_refund_members(params: RefundParamsView, key: Seq<char>)
    ensures
        member(refund_members(params), key) == refund_value(params, key),
{
    lemma_names_differ();
    let m0 = Seq::<(Seq<char>, JsonView)>::empty();
    let m1 = with_optional(m0, "payerPaymentReference"@, params.payer_payment_reference);
    let m2 = with_text(m1, "originalPaymentReference"@, params.original_payment_reference);
    let m3 = with_optional(m2, "paymentReference"@, params.payment_reference);
    let m4 = with_text(m3, "payerAlias"@, params.payer_alias);
    let m5 = with_text(m4, "payeeAlias"@, params.payee_alias);
    let m6 = m5.push(("amount"@, JsonView::Number(params.amount)));
    let m7 = with_text(m6, "currency"@, currency_name(params.currency));
    let m8 = with_optional(m7, "message"@, params.message);
    let m9 = with_text(m8, "callbackUrl"@, params.callback_url);
    assert(member(m0, key) is None);
    lemma_member_optional(m0, "payerPaymentReference"@, params.payer_payment_reference, key);
    lemma_member_push(
        m1,
        "originalPaymentReference"@,
        JsonView::String(params.original_payment_reference),
        key,
    );
    lemma_member_optional(m2, "paymentReference"@, params.payment_reference, key);
    lemma_member_push(m3, "payerAlias"@, JsonView::String(params.payer_alias), key);
    lemma_member_push(m4, "payeeAlias"@, JsonView::String(params.payee_alias), key);
    lemma_member_push(m5, "amount"@, JsonView::Number(params.amount), key);
    lemma_member_push(m6, "currency"@, JsonView::String(currency_name(params.currency)), key);
    lemma_member_optional(m7, "message"@, params.message, key);
    lemma_member_push(m8, "callbackUrl"@, JsonView::String(params.callback_url), key);
    assert(refund_members(params) == m9);
}

/// The keys of the request for a payment are those of the required fields
/// and those of the optional fields that hold a value: a field without a
/// value leaves no key behind.
pub proof fn lemma_payment_keys(params: PaymentParamsView)
    ensures
        keys(payment_members(params)) == payment_required_keys().union(
            payment_optional_keys(params),
        ),
{
    assert forall|key: Seq<char>|
        keys(payment_members(params)).contains(key) == payment_required_keys().union(
            payment_optional_keys(params),
        ).contains(key) by {
        lemma_names_differ();
        lemma_payment_members(params, key);
    }
    assert(keys(payment_members(params)) =~= payment_required_keys().union(
        payment_optional_keys(params),
    ));
}

/// The keys of the request for a refund are those of the required fields
/// and those of the optional fields that hold a value: a field without a
/// value leaves no key behind.
pub proof fn lemma_refund_keys(params: RefundParamsView)
    ensures
        keys(refund_members(params)) == refund_required_keys().union(
            refund_optional_keys(params),
        ),
{
    assert forall|key: Seq<char>|
        keys(refund_members(params)).contains(key) == refund_required_keys().union(
            refund_optional_keys(params),
        ).contains(key) by {
        lemma_names_differ();
        lemma_refund_members(params, key);
    }
    assert(keys(refund_members(params)) =~= refund_required_keys().union(
        refund_optional_keys(params),
    ));
}

/// The payee of a request for a payment is the merchant, whoever the
/// params name.
pub proof fn lemma_payee_is_merchant(params: PaymentParamsView, merchant: Seq<char>)
    ensures
        member(payment_members(with_payee(params, merchant)), "payeeAlias"@) == Some(
            JsonView::String(merchant),
        ),
{
    lemma_names_differ();
    lemma_payment_members(with_payee(params, merchant), "payeeAlias"@);
}

/// The payer of a request for a refund is the merchant, whoever the params
/// name.
pub proof fn lemma_payer_is_merchant(params: RefundParamsView, merchant: Seq<char>)
    ensures
        member(refund_members(with_payer(params, merchant)), "payerAlias"@) == Some(
            JsonView::String(merchant),
        ),
{
    lemma_names_differ();
    lemma_refund_members(with_payer(params, merchant), "payerAlias"@);
}

} // verus!
