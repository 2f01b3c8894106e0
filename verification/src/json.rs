//! The payload of a token as a tree of plain values, and the six fields of a
//! set of claims in it.

use vstd::prelude::*;
use vstd::string::StringExecFns;
use crate::claims::{Claims, ClaimsView};
use crate::grants::names_of;
use crate::text::str_eq;

verus! {

/// A JSON value. An integer is `Unsigned` where it is not negative and fits,
/// `Signed` where it is negative and fits; every other number is `Fraction`,
/// which does not keep its value.
#[derive(Debug, PartialEq, Eq)]
pub enum JsonValue {
    Null,
    Bool(bool),
    Unsigned(u64),
    Signed(i64),
    Fraction,
    Text(String),
    List(Vec<JsonValue>),
    Object(Vec<(String, JsonValue)>),
}

/// What a `JsonValue` holds.
pub enum JsonView {
    Null,
    Bool(bool),
    Unsigned(u64),
    Signed(i64),
    Fraction,
    Text(Seq<char>),
    List(Seq<JsonView>),
    Object(Seq<(Seq<char>, JsonView)>),
}

/// What `value` holds.
pub open spec fn json_view(value: JsonValue) -> JsonView
    decreases value,
{
    match value {
        JsonValue::Null => JsonView::Null,
        JsonValue::Bool(flag) => JsonView::Bool(flag),
        JsonValue::Unsigned(number) => JsonView::Unsigned(number),
        JsonValue::Signed(number) => JsonView::Signed(number),
        JsonValue::Fraction => JsonView::Fraction,
        JsonValue::Text(text) => JsonView::Text(text@),
        JsonValue::List(items) => JsonView::List(
            Seq::new(
                items@.len(),
                |i: int|
                    if 0 <= i < items@.len() {
                        json_view(items@[i])
                    } else {
                        JsonView::Null
                    },
            ),
        ),
        JsonValue::Object(entries) => JsonView::Object(
            Seq::new(
                entries@.len(),
                |i: int|
                    if 0 <= i < entries@.len() {
                        (entries@[i].0@, json_view(entries@[i].1))
                    } else {
                        (Seq::empty(), JsonView::Null)
                    },
            ),
        ),
    }
}

impl View for JsonValue {
    type V = JsonView;

    open spec fn view(&self) -> JsonView {
        json_view(*self)
    }
}

/// Whether a value holds no `Fraction`, at any depth.
pub open spec fn exact(value: JsonView) -> bool
    decreases value,
{
    match value {
        JsonView::Fraction => false,
        JsonView::List(items) => forall|i: int| 0 <= i < items.len() ==> exact(#[trigger] items[i]),
        JsonView::Object(entries) => forall|i: int|
            0 <= i < entries.len() ==> exact((#[trigger] entries[i]).1),
        _ => true,
    }
}

/// The value under `key` in the entries of an object: that of the last entry
/// with this key, as a later entry replaces an earlier one.
pub open spec fn lookup(entries: Seq<(Seq<char>, JsonView)>, key: Seq<char>) -> Option<JsonView>
    decreases entries.len(),
{
    if entries.len() == 0 {
        None
    } else if entries.last().0 == key {
        Some(entries.last().1)
    } else {
        lookup(entries.drop_last(), key)
    }
}

/// The value as an unsigned integer of 64 bits, where it is one.
pub open spec fn as_unsigned(value: JsonView) -> Option<u64> {
    match value {
        JsonView::Unsigned(number) => Some(number),
        JsonView::Signed(number) => if number >= 0 {
            Some(number as u64)
        } else {
            None
        },
        _ => None,
    }
}

/// The value as a signed integer of 32 bits, where it is one.
pub open spec fn as_int32(value: JsonView) -> Option<i32> {
    match value {
        JsonView::Unsigned(number) => if number <= i32::MAX {
            Some(number as i32)
        } else {
            None
        },
        JsonView::Signed(number) => if i32::MIN <= number <= i32::MAX {
            Some(number as i32)
        } else {
            None
        },
        _ => None,
    }
}

/// The value as a string, where it is one.
pub open spec fn as_text(value: JsonView) -> Option<Seq<char>> {
    match value {
        JsonView::Text(text) => Some(text),
        _ => None,
    }
}

/// The value as a list of strings, where it is one.
pub open spec fn as_texts(value: JsonView) -> Option<Seq<Seq<char>>> {
    match value {
        JsonView::List(items) => if forall|i: int| 0 <= i < items.len() ==> #[trigger] items[i] is Text {
            Some(Seq::new(items.len(), |i: int| items[i]->Text_0))
        } else {
            None
        },
        _ => None,
    }
}

/// A field of the claims in a payload, by the name it has on the wire.
#[derive(Clone, Copy, Debug, PartialEq, Eq)]
pub enum ClaimsField {
    /// `sub`: the user.
    Subject,
    /// `iss`: the issuer.
    Issuer,
    /// `grt`: the grants.
    Grants,
    /// `app`: the applications.
    Apps,
    /// `iat`: the time of issue.
    IssuedAt,
    /// `exp`: the expiry.
    Expires,
}

/// Why a payload does not hold a set of claims.
#[derive(Clone, Copy, Debug, PartialEq, Eq)]
pub enum MalformedClaims {
    /// The payload is not an object.
    NotAnObject,
    /// The field is missing or holds a value of another type.
    Field(ClaimsField),
}

/// The name of a field on the wire.
pub open spec fn wire_name(field: ClaimsField) -> Seq<char> {
    match field {
        ClaimsField::Subject => "sub"@,
        ClaimsField::Issuer => "iss"@,
        ClaimsField::Grants => "grt"@,
        ClaimsField::Apps => "app"@,
        ClaimsField::IssuedAt => "iat"@,
        ClaimsField::Expires => "exp"@,
    }
}

impl MalformedClaims {
    /// The text shown for this reason.
    pub fn message(&self) -> (text: String)
        ensures
            text@ == match *self {
                MalformedClaims::NotAnObject => "the payload is not an object"@,
                MalformedClaims::Field(field) => "missing or malformed field: "@ + wire_name(field),
            },
    {
        match self {
            MalformedClaims::NotAnObject => "the payload is not an object".to_owned(),
            MalformedClaims::Field(field) => "missing or malformed field: ".to_owned().concat(field.name()),
        }
    }
}

/// The claims that a payload holds, or the first reason why it holds none.
/// The payload has to be an object with the six fields, each of its type:
/// `sub` an integer of 32 bits, `iss` a string, `grt` and `app` lists of
/// strings, `iat` and `exp` unsigned integers of 64 bits. The fields are
/// examined in this order. Other fields are ignored.
pub open spec fn decoded(payload: JsonView) -> Result<ClaimsView, MalformedClaims> {
    match payload {
        JsonView::Object(entries) => {
            let subject = field_of(entries, ClaimsField::Subject, |v: JsonView| as_int32(v) is Some);
            let issuer = field_of(entries, ClaimsField::Issuer, |v: JsonView| as_text(v) is Some);
            let grants = field_of(entries, ClaimsField::Grants, |v: JsonView| as_texts(v) is Some);
            let apps = field_of(entries, ClaimsField::Apps, |v: JsonView| as_texts(v) is Some);
            let issued_at = field_of(entries, ClaimsField::IssuedAt, |v: JsonView| as_unsigned(v) is Some);
            let expires = field_of(entries, ClaimsField::Expires, |v: JsonView| as_unsigned(v) is Some);
            if subject is None {
                Err(MalformedClaims::Field(ClaimsField::Subject))
            } else if issuer is None {
                Err(MalformedClaims::Field(ClaimsField::Issuer))
            } else if grants is None {
                Err(MalformedClaims::Field(ClaimsField::Grants))
            } else if apps is None {
                Err(MalformedClaims::Field(ClaimsField::Apps))
            } else if issued_at is None {
                Err(MalformedClaims::Field(ClaimsField::IssuedAt))
            } else if expires is None {
                Err(MalformedClaims::Field(ClaimsField::Expires))
            } else {
                Ok(
                    ClaimsView {
                        user_id: as_int32(subject->0)->0,
                        issuer: as_text(issuer->0)->0,
                        grants: as_texts(grants->0)->0,
                        apps: as_texts(apps->0)->0,
                        issued_at: as_unsigned(issued_at->0)->0,
                        expires: as_unsigned(expires->0)->0,
                    },
                )
            }
        },
        _ => Err(MalformedClaims::NotAnObject),
    }
}

/// The value of a field, where the object has the field and the value is of
/// the type that `fits` accepts.
pub open spec fn field_of(
    entries: Seq<(Seq<char>, JsonView)>,
    field: ClaimsField,
    fits: spec_fn(JsonView) -> bool,
) -> Option<JsonView> {
    match lookup(entries, wire_name(field)) {
        Some(value) => if fits(value) {
            Some(value)
        } else {
            None
        },
        None => None,
    }
}

/// A list of strings as a list of JSON strings.
pub open spec fn text_list(texts: Seq<Seq<char>>) -> JsonView {
    JsonView::List(Seq::new(texts.len(), |i: int| JsonView::Text(texts[i])))
}

/// A signed integer of 32 bits as a JSON number.
pub open spec fn int32_number(number: i32) -> JsonView {
    if number >= 0 {
        JsonView::Unsigned(number as u64)
    } else {
        JsonView::Signed(number as i64)
    }
}

/// The payload that holds `claims`: an object of the six fields, in the
/// order of their names.
pub open spec fn encoded(claims: ClaimsView) -> JsonView {
    JsonView::Object(
        seq![
            (wire_name(ClaimsField::Apps), text_list(claims.apps)),
            (wire_name(ClaimsField::Expires), JsonView::Unsigned(claims.expires)),
            (wire_name(ClaimsField::Grants), text_list(claims.grants)),
            (wire_name(ClaimsField::IssuedAt), JsonView::Unsigned(claims.issued_at)),
            (wire_name(ClaimsField::Issuer), JsonView::Text(claims.issuer)),
            (wire_name(ClaimsField::Subject), int32_number(claims.user_id)),
        ],
    )
}

/// The views of the entries of an object.
pub open spec fn entry_views(entries: Seq<(String, JsonValue)>) -> Seq<(Seq<char>, JsonView)> {
    Seq::new(entries.len(), |i: int| (entries[i].0@, entries[i].1@))
}

/// The views of the items of a list.
pub open spec fn item_views(items: Seq<JsonValue>) -> Seq<JsonView> {
    Seq::new(items.len(), |i: int| items[i]@)
}

impl ClaimsField {
    /// The name of this field on the wire.
    pub fn name(&self) -> (name: &'static str)
        ensures
            name@ == wire_name(*self),
    {
        match self {
            ClaimsField::Subject => "sub",
            ClaimsField::Issuer => "iss",
            ClaimsField::Grants => "grt",
            ClaimsField::Apps => "app",
            ClaimsField::IssuedAt => "iat",
            ClaimsField::Expires => "exp",
        }
    }
}

impl JsonValue {
    /// The view of an object is made of the views of its entries, and that of
    /// a list of the views of its items.
    pub proof fn lemma_view(&self)
        ensures
            self matches JsonValue::Object(entries) ==> self@ == JsonView::Object(entry_views(entries@)),
            self matches JsonValue::List(items) ==> self@ == JsonView::List(item_views(items@)),
    {
        match self {
            JsonValue::Object(entries) => {
                assert(self@->Object_0 =~= entry_views(entries@));
            },
            JsonValue::List(items) => {
                assert(self@->List_0 =~= item_views(items@));
            },
            _ => {},
        }
    }

    /// The value under `key`, where this is an object that has the key.
    pub fn get(&self, key: &str) -> (found: Option<&JsonValue>)
        ensures
            match found {
                Some(value) => Some(value@),
                None => None,
            } == match self@ {
                JsonView::Object(entries) => lookup(entries, key@),
                _ => None,
            },
    {
        proof {
            self.lemma_view();
        }
        match self {
            JsonValue::Object(entries) => {
                let ghost all = entry_views(entries@);
                let mut found: Option<&JsonValue> = None;
                let mut i: usize = 0;
                while i < entries.len()
                    invariant
                        i <= entries.len(),
                        all == entry_views(entries@),
                        match found {
                            Some(value) => Some(value@),
                            None => None,
                        } == lookup(all.take(i as int), key@),
                    decreases entries.len() - i,
                {
                    proof {
                        assert(all.take(i + 1).drop_last() == all.take(i as int));
                        assert(all.take(i + 1).last() == all[i as int]);
                    }
                    if str_eq(entries[i].0.as_str(), key) {
                        found = Some(&entries[i].1);
                    }
                    i += 1;
                }
                proof {
                    assert(all.take(entries.len() as int) == all);
                }
                found
            },
            _ => None,
        }
    }

    /// This value as an unsigned integer of 64 bits, where it is one.
    pub fn to_unsigned(&self) -> (number: Option<u64>)
        ensures
            number == as_unsigned(self@),
    {
        match self {
            JsonValue::Unsigned(number) => Some(*number),
            JsonValue::Signed(number) => if *number >= 0 {
                Some(*number as u64)
            } else {
                None
            },
            _ => None,
        }
    }

    /// This value as a signed integer of 32 bits, where it is one.
    pub fn to_int32(&self) -> (number: Option<i32>)
        ensures
            number == as_int32(self@),
    {
        match self {
            JsonValue::Unsigned(number) => if *number <= 0x7fff_ffff {
                Some(*number as i32)
            } else {
                None
            },
            JsonValue::Signed(number) => if -0x8000_0000 <= *number && *number <= 0x7fff_ffff {
                Some(*number as i32)
            } else {
                None
            },
            _ => None,
        }
    }

    /// This value as a string, where it is one.
    pub fn to_text(&self) -> (text: Option<String>)
        ensures
            match text {
                Some(text) => Some(text@),
                None => None,
            } == as_text(self@),
    {
        match self {
            JsonValue::Text(text) => Some(text.clone()),
            _ => None,
        }
    }

    /// This value as a list of strings, where it is one.
    pub fn to_texts(&self) -> (texts: Option<Vec<String>>)
        ensures
            match texts {
                Some(texts) => Some(names_of(texts@)),
                None => None,
            } == as_texts(self@),
    {
        proof {
            self.lemma_view();
        }
        match self {
            JsonValue::List(items) => {
                let ghost all = item_views(items@);
                let mut texts: Vec<String> = Vec::new();
                let mut i: usize = 0;
                while i < items.len()
                    invariant
                        i <= items.len(),
                        all == item_views(items@),
                        self@ == JsonView::List(all),
                        texts@.len() == i,
                        forall|j: int| 0 <= j < i ==> #[trigger] all[j] == JsonView::Text(texts@[j]@),
                    decreases items.len() - i,
                {
                    match &items[i] {
                        JsonValue::Text(text) => {
                            texts.push(text.clone());
                        },
                        _ => {
                            assert(!(all[i as int] is Text));
                            return None;
                        },
                    }
                    i += 1;
                }
                assert(names_of(texts@) =~= Seq::new(all.len(), |i: int| all[i]->Text_0));
                Some(texts)
            },
            _ => None,
        }
    }

    /// A list of strings as a list of JSON strings.
    pub fn from_texts(texts: &Vec<String>) -> (list: JsonValue)
        ensures
            list@ == text_list(names_of(texts@)),
    {
        let mut items: Vec<JsonValue> = Vec::new();
        let mut i: usize = 0;
        while i < texts.len()
            invariant
                i <= texts.len(),
                items@.len() == i,
                forall|j: int| 0 <= j < i ==> (#[trigger] items@[j])@ == JsonView::Text(texts@[j]@),
            decreases texts.len() - i,
        {
            items.push(JsonValue::Text(texts[i].clone()));
            i += 1;
        }
        let list = JsonValue::List(items);
        proof {
            list.lemma_view();
            assert(item_views(items@) =~= text_list(names_of(texts@))->List_0);
        }
        list
    }

    /// A signed integer of 32 bits as a JSON number.
    pub fn from_int32(number: i32) -> (value: JsonValue)
        ensures
            value@ == int32_number(number),
    {
        if number >= 0 {
            JsonValue::Unsigned(number as u64)
        } else {
            JsonValue::Signed(number as i64)
        }
    }
}

impl Claims {
    /// The payload that holds these claims.
    pub fn to_json(&self) -> (payload: JsonValue)
        ensures
            payload@ == encoded(self@),
            exact(payload@),
            decoded(payload@) == Ok::<ClaimsView, MalformedClaims>(self@),
    {
        let mut entries: Vec<(String, JsonValue)> = Vec::new();
        entries.push((ClaimsField::Apps.name().to_owned(), JsonValue::from_texts(&self.apps)));
        entries.push((ClaimsField::Expires.name().to_owned(), JsonValue::Unsigned(self.expires)));
        entries.push((ClaimsField::Grants.name().to_owned(), JsonValue::from_texts(&self.grants)));
        entries.push((ClaimsField::IssuedAt.name().to_owned(), JsonValue::Unsigned(self.issued_at)));
        entries.push((ClaimsField::Issuer.name().to_owned(), JsonValue::Text(self.issuer.clone())));
        entries.push((ClaimsField::Subject.name().to_owned(), JsonValue::from_int32(self.user_id)));
        let payload = JsonValue::Object(entries);
        proof {
            payload.lemma_view();
            assert(entry_views(entries@) =~= encoded(self@)->Object_0);
            lemma_decode_encode(self@);
        }
        payload
    }

    /// The claims that `payload` holds, or the first reason why it holds none.
    pub fn from_json(payload: &JsonValue) -> (claims: Result<Claims, MalformedClaims>)
        ensures
            match claims {
                Ok(claims) => Ok::<ClaimsView, MalformedClaims>(claims@),
                Err(reason) => Err::<ClaimsView, MalformedClaims>(reason),
            } == decoded(payload@),
    {
        match payload {
            JsonValue::Object(_) => {},
            _ => {
                return Err(MalformedClaims::NotAnObject);
            },
        }
        let user_id = match payload.get(ClaimsField::Subject.name()) {
            Some(value) => value.to_int32(),
            None => None,
        };
        let issuer = match payload.get(ClaimsField::Issuer.name()) {
            Some(value) => value.to_text(),
            None => None,
        };
        let grants = match payload.get(ClaimsField::Grants.name()) {
            Some(value) => value.to_texts(),
            None => None,
        };
        let apps = match payload.get(ClaimsField::Apps.name()) {
            Some(value) => value.to_texts(),
            None => None,
        };
        let issued_at = match payload.get(ClaimsField::IssuedAt.name()) {
            Some(value) => value.to_unsigned(),
            None => None,
        };
        let expires = match payload.get(ClaimsField::Expires.name()) {
            Some(value) => value.to_unsigned(),
            None => None,
        };
        match (user_id, issuer, grants, apps, issued_at, expires) {
            (Some(user_id), Some(issuer), Some(grants), Some(apps), Some(issued_at), Some(expires)) => Ok(
                Claims { user_id, issuer, grants, apps, issued_at, expires },
            ),
            (None, _, _, _, _, _) => Err(MalformedClaims::Field(ClaimsField::Subject)),
            (_, None, _, _, _, _) => Err(MalformedClaims::Field(ClaimsField::Issuer)),
            (_, _, None, _, _, _) => Err(MalformedClaims::Field(ClaimsField::Grants)),
            (_, _, _, None, _, _) => Err(MalformedClaims::Field(ClaimsField::Apps)),
            (_, _, _, _, None, _) => Err(MalformedClaims::Field(ClaimsField::IssuedAt)),
            (_, _, _, _, _, None) => Err(MalformedClaims::Field(ClaimsField::Expires)),
        }
    }
}

/// The six names on the wire differ from one another.
pub proof fn lemma_wire_names_differ()
    ensures
        forall|a: ClaimsField, b: ClaimsField| wire_name(a) == wire_name(b) ==> a == b,
{
    reveal_strlit("sub");
    reveal_strlit("iss");
    reveal_strlit("grt");
    reveal_strlit("app");
    reveal_strlit("iat");
    reveal_strlit("exp");
    assert forall|a: ClaimsField, b: ClaimsField| wire_name(a) == wire_name(b) implies a == b by {
        let x = wire_name(a);
        let y = wire_name(b);
        assert(x[0] == y[0] && x[1] == y[1] && x[2] == y[2]);
    }
}

/// Whether two lists of entries give every one of the six fields the same
/// value, or both none.
pub open spec fn same_fields(first: Seq<(Seq<char>, JsonView)>, second: Seq<(Seq<char>, JsonView)>) -> bool {
    forall|field: ClaimsField| lookup(first, #[trigger] wire_name(field)) == lookup(second, wire_name(field))
}

/// What an object holds as claims depends on the values of the six fields
/// alone: not on the order of its entries, not on entries that a later one
/// replaces, not on other entries.
pub proof fn lemma_decoded_by_fields(first: Seq<(Seq<char>, JsonView)>, second: Seq<(Seq<char>, JsonView)>)
    requires
        same_fields(first, second),
    ensures
        decoded(JsonView::Object(first)) == decoded(JsonView::Object(second)),
{
    assert(lookup(first, wire_name(ClaimsField::Subject)) == lookup(second, wire_name(ClaimsField::Subject)));
    assert(lookup(first, wire_name(ClaimsField::Issuer)) == lookup(second, wire_name(ClaimsField::Issuer)));
    assert(lookup(first, wire_name(ClaimsField::Grants)) == lookup(second, wire_name(ClaimsField::Grants)));
    assert(lookup(first, wire_name(ClaimsField::Apps)) == lookup(second, wire_name(ClaimsField::Apps)));
    assert(lookup(first, wire_name(ClaimsField::IssuedAt)) == lookup(second, wire_name(ClaimsField::IssuedAt)));
    assert(lookup(first, wire_name(ClaimsField::Expires)) == lookup(second, wire_name(ClaimsField::Expires)));
}

/// A payload that was written from a set of claims holds these claims, and no
/// `Fraction`.
pub proof fn lemma_decode_encode(claims: ClaimsView)
    ensures
        decoded(encoded(claims)) == Ok::<ClaimsView, MalformedClaims>(claims),
        exact(encoded(claims)),
{
    let payload = encoded(claims);
    let entries = payload->Object_0;
    lemma_wire_names_differ();
    reveal_with_fuel(lookup, 7);
    assert(entries.len() == 6);
    let e5 = entries.drop_last();
    let e4 = e5.drop_last();
    let e3 = e4.drop_last();
    let e2 = e3.drop_last();
    let e1 = e2.drop_last();
    assert(e5.len() == 5 && e4.len() == 4 && e3.len() == 3 && e2.len() == 2 && e1.len() == 1);
    assert(e5.last() == entries[4] && e4.last() == entries[3] && e3.last() == entries[2] && e2.last()
        == entries[1] && e1.last() == entries[0]);
    assert(lookup(entries, wire_name(ClaimsField::Subject)) == Some(entries[5].1));
    assert(lookup(entries, wire_name(ClaimsField::Issuer)) == Some(entries[4].1));
    assert(lookup(entries, wire_name(ClaimsField::IssuedAt)) == Some(entries[3].1));
    assert(lookup(entries, wire_name(ClaimsField::Grants)) == Some(entries[2].1));
    assert(lookup(entries, wire_name(ClaimsField::Expires)) == Some(entries[1].1));
    assert(lookup(entries, wire_name(ClaimsField::Apps)) == Some(entries[0].1));
    assert(as_texts(text_list(claims.grants)) == Some(claims.grants)) by {
        let items = text_list(claims.grants)->List_0;
        assert(Seq::new(items.len(), |i: int| items[i]->Text_0) =~= claims.grants);
    }
    assert(as_texts(text_list(claims.apps)) == Some(claims.apps)) by {
        let items = text_list(claims.apps)->List_0;
        assert(Seq::new(items.len(), |i: int| items[i]->Text_0) =~= claims.apps);
    }
    assert(as_int32(int32_number(claims.user_id)) == Some(claims.user_id));
    assert(exact(payload)) by {
        reveal_with_fuel(exact, 3);
        assert forall|i: int| 0 <= i < entries.len() implies exact((#[trigger] entries[i]).1) by {
            if i == 0 {
                assert(exact(text_list(claims.apps)));
            } else if i == 2 {
                assert(exact(text_list(claims.grants)));
            }
        }
    }
}

} // verus!
