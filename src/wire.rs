use vstd::prelude::*;

verus! {

/// The fields that request bodies carry.
#[derive(Clone, Copy, Debug, PartialEq, Eq, Structural)]
pub enum WireKey {
    LocalId,
    DisableUser,
    DisplayName,
    Email,
    EmailVerified,
    PhoneNumber,
    Password,
    DeleteAttribute,
    DeleteProvider,
}

/// The camelCase name under which a field is sent.
pub open spec fn key_name(k: WireKey) -> Seq<char> {
    match k {
        WireKey::LocalId => "localId"@,
        WireKey::DisableUser => "disableUser"@,
        WireKey::DisplayName => "displayName"@,
        WireKey::Email => "email"@,
        WireKey::EmailVerified => "emailVerified"@,
        WireKey::PhoneNumber => "phoneNumber"@,
        WireKey::Password => "password"@,
        WireKey::DeleteAttribute => "deleteAttribute"@,
        WireKey::DeleteProvider => "deleteProvider"@,
    }
}

impl WireKey {
    pub fn name(&self) -> (r: &'static str)
        ensures
            r@ == key_name(*self),
    {
        match self {
            WireKey::LocalId => "localId",
            WireKey::DisableUser => "disableUser",
            WireKey::DisplayName => "displayName",
            WireKey::Email => "email",
            WireKey::EmailVerified => "emailVerified",
            WireKey::PhoneNumber => "phoneNumber",
            WireKey::Password => "password",
            WireKey::DeleteAttribute => "deleteAttribute",
            WireKey::DeleteProvider => "deleteProvider",
        }
    }
}

/// A field's value in a request body. There is no null: a field without a
/// value is left out of the body.
#[derive(Debug)]
pub enum WireValue {
    Bool(bool),
    Text(String),
    TextList(Vec<String>),
}

pub enum WireVal {
    Bool(bool),
    Text(Seq<char>),
    TextList(Seq<Seq<char>>),
}

pub open spec fn texts_view(v: Seq<String>) -> Seq<Seq<char>> {
    v.map_values(|s: String| s@)
}

impl View for WireValue {
    type V = WireVal;

    open spec fn view(&self) -> WireVal {
        match self {
            WireValue::Bool(b) => WireVal::Bool(*b),
            WireValue::Text(s) => WireVal::Text(s@),
            WireValue::TextList(v) => WireVal::TextList(texts_view(v@)),
        }
    }
}

/// One named field of a request body.
#[derive(Debug)]
pub struct WireField {
    pub key: WireKey,
    pub value: WireValue,
}

impl View for WireField {
    type V = (WireKey, WireVal);

    open spec fn view(&self) -> (WireKey, WireVal) {
        (self.key, self.value@)
    }
}

/// A request body: its fields, in order.
pub type Body = Seq<(WireKey, WireVal)>;

pub open spec fn body_view(b: Seq<WireField>) -> Body {
    b.map_values(|f: WireField| f@)
}

/// Whether some field of the body is named `k`.
pub open spec fn has_key(b: Body, k: WireKey) -> bool {
    exists|i: int| 0 <= i < b.len() && (#[trigger] b[i]).0 == k
}

/// Whether the body holds the field `k` with value `v`.
pub open spec fn has_entry(b: Body, k: WireKey, v: WireVal) -> bool {
    exists|i: int| 0 <= i < b.len() && #[trigger] b[i] == (k, v)
}

/// An optional string as the value it holds.
pub open spec fn text_opt(o: Option<String>) -> Option<Seq<char>> {
    match o {
        Some(s) => Some(s@),
        None => None,
    }
}

pub open spec fn opt_entry(k: WireKey, v: Option<WireVal>) -> Body {
    match v {
        Some(x) => seq![(k, x)],
        None => Seq::empty(),
    }
}

pub open spec fn text_entry(k: WireKey, v: Option<Seq<char>>) -> Body {
    match v {
        Some(s) => seq![(k, WireVal::Text(s))],
        None => Seq::empty(),
    }
}

pub open spec fn bool_entry(k: WireKey, v: Option<bool>) -> Body {
    match v {
        Some(b) => seq![(k, WireVal::Bool(b))],
        None => Seq::empty(),
    }
}

/// A list field, left out of the body when the list is empty.
pub open spec fn list_entry(k: WireKey, l: Seq<Seq<char>>) -> Body {
    if l.len() == 0 {
        Seq::empty()
    } else {
        seq![(k, WireVal::TextList(l))]
    }
}

pub(crate) fn push_text(body: &mut Vec<WireField>, key: WireKey, value: String)
    ensures
        body_view(final(body)@) == body_view(old(body)@) + seq![(key, WireVal::Text(value@))],
{
    body.push(WireField { key, value: WireValue::Text(value) });
    assert(body_view(body@) =~= body_view(old(body)@) + seq![(key, WireVal::Text(value@))]);
}

pub(crate) fn push_bool(body: &mut Vec<WireField>, key: WireKey, value: bool)
    ensures
        body_view(final(body)@) == body_view(old(body)@) + seq![(key, WireVal::Bool(value))],
{
    body.push(WireField { key, value: WireValue::Bool(value) });
    assert(body_view(body@) =~= body_view(old(body)@) + seq![(key, WireVal::Bool(value))]);
}

pub(crate) fn push_opt_text(body: &mut Vec<WireField>, key: WireKey, value: &Option<String>)
    ensures
        body_view(final(body)@) == body_view(old(body)@) + text_entry(key, text_opt(*value)),
{
    match value {
        Some(s) => push_text(body, key, s.clone()),
        None => {
            assert(body_view(body@) =~= body_view(old(body)@) + text_entry(key, text_opt(*value)));
        },
    }
}

pub(crate) fn push_opt_bool(body: &mut Vec<WireField>, key: WireKey, value: Option<bool>)
    ensures
        body_view(final(body)@) == body_view(old(body)@) + bool_entry(key, value),
{
    match value {
        Some(b) => push_bool(body, key, b),
        None => {
            assert(body_view(body@) =~= body_view(old(body)@) + bool_entry(key, value));
        },
    }
}

pub(crate) fn push_list(body: &mut Vec<WireField>, key: WireKey, list: Vec<String>)
    ensures
        body_view(final(body)@) == body_view(old(body)@) + list_entry(key, texts_view(list@)),
{
    if list.len() > 0 {
        let ghost l = texts_view(list@);
        body.push(WireField { key, value: WireValue::TextList(list) });
        assert(body_view(body@) =~= body_view(old(body)@) + list_entry(key, l));
    } else {
        assert(body_view(body@) =~= body_view(old(body)@) + list_entry(key, texts_view(list@)));
    }
}

/// A concatenated body holds exactly the entries of its parts.
pub proof fn lemma_concat_entries(a: Body, b: Body)
    ensures
        forall|k: WireKey, v: WireVal|
            #[trigger] has_entry(a + b, k, v) <==> has_entry(a, k, v) || has_entry(b, k, v),
        forall|k: WireKey| #[trigger] has_key(a + b, k) <==> has_key(a, k) || has_key(b, k),
{
    assert forall|k: WireKey, v: WireVal|
        #[trigger] has_entry(a + b, k, v) <==> has_entry(a, k, v) || has_entry(b, k, v) by {
        if has_entry(a + b, k, v) {
            let i = choose|i: int| 0 <= i < (a + b).len() && #[trigger] (a + b)[i] == (k, v);
            if i < a.len() {
                assert(a[i] == (k, v));
            } else {
                assert(b[i - a.len()] == (k, v));
            }
        }
        if has_entry(a, k, v) {
            let i = choose|i: int| 0 <= i < a.len() && #[trigger] a[i] == (k, v);
            assert((a + b)[i] == (k, v));
        }
        if has_entry(b, k, v) {
            let i = choose|i: int| 0 <= i < b.len() && #[trigger] b[i] == (k, v);
            assert((a + b)[i + a.len()] == (k, v));
        }
    }
    assert forall|k: WireKey| #[trigger] has_key(a + b, k) <==> has_key(a, k) || has_key(b, k) by {
        if has_key(a + b, k) {
            let i = choose|i: int| 0 <= i < (a + b).len() && (#[trigger] (a + b)[i]).0 == k;
            if i < a.len() {
                assert(a[i].0 == k);
            } else {
                assert(b[i - a.len()].0 == k);
            }
        }
        if has_key(a, k) {
            let i = choose|i: int| 0 <= i < a.len() && (#[trigger] a[i]).0 == k;
            assert((a + b)[i].0 == k);
        }
        if has_key(b, k) {
            let i = choose|i: int| 0 <= i < b.len() && (#[trigger] b[i]).0 == k;
            assert((a + b)[i + a.len()].0 == k);
        }
    }
}

/// A body of one field holds that field alone.
pub proof fn lemma_single_entry(k0: WireKey, v0: WireVal)
    ensures
        forall|k: WireKey, v: WireVal|
            #[trigger] has_entry(seq![(k0, v0)], k, v) <==> (k == k0 && v == v0),
        forall|k: WireKey| #[trigger] has_key(seq![(k0, v0)], k) <==> k == k0,
{
    let b = seq![(k0, v0)];
    assert(b[0] == (k0, v0));
}

/// The empty body holds nothing.
pub proof fn lemma_empty_entries()
    ensures
        forall|k: WireKey, v: WireVal| !#[trigger] has_entry(Seq::empty(), k, v),
        forall|k: WireKey| !#[trigger] has_key(Seq::empty(), k),
{
}

/// An optional text field holds its value exactly when it has one.
pub proof fn lemma_text_entry(k0: WireKey, o: Option<Seq<char>>)
    ensures
        forall|k: WireKey, v: WireVal|
            #[trigger] has_entry(text_entry(k0, o), k, v) <==> (k == k0 && o is Some && v
                == WireVal::Text(o.unwrap())),
        forall|k: WireKey| #[trigger] has_key(text_entry(k0, o), k) <==> (k == k0 && o is Some),
{
    lemma_empty_entries();
    if let Some(s) = o {
        lemma_single_entry(k0, WireVal::Text(s));
    }
}

/// An optional flag holds its value exactly when it has one.
pub proof fn lemma_bool_entry(k0: WireKey, o: Option<bool>)
    ensures
        forall|k: WireKey, v: WireVal|
            #[trigger] has_entry(bool_entry(k0, o), k, v) <==> (k == k0 && o is Some && v
                == WireVal::Bool(o.unwrap())),
        forall|k: WireKey| #[trigger] has_key(bool_entry(k0, o), k) <==> (k == k0 && o is Some),
{
    lemma_empty_entries();
    if let Some(b) = o {
        lemma_single_entry(k0, WireVal::Bool(b));
    }
}

/// A list field is held exactly when the list is not empty.
pub proof fn lemma_list_entry(k0: WireKey, l: Seq<Seq<char>>)
    ensures
        forall|k: WireKey, v: WireVal|
            #[trigger] has_entry(list_entry(k0, l), k, v) <==> (k == k0 && l.len() > 0 && v
                == WireVal::TextList(l)),
        forall|k: WireKey| #[trigger] has_key(list_entry(k0, l), k) <==> (k == k0 && l.len()
            > 0),
{
    lemma_empty_entries();
    if l.len() > 0 {
        lemma_single_entry(k0, WireVal::TextList(l));
    }
}

} // verus!
