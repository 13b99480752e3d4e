//! The decoded JSON payloads that events arrive as, and the reads the event logic makes of them.
use vstd::prelude::*;

use crate::text::str_eq;

verus! {

/// How a JSON number reads when taken as a double (`as_f64`), in the renderings that event
/// texts print. Computed where the payload is decoded.
#[derive(Debug)]
pub struct DoubleText {
    /// Shortest form, as `{}` prints a double.
    pub shortest: String,
    /// With one decimal.
    pub fixed1: String,
    /// With two decimals.
    pub fixed2: String,
    /// With three decimals.
    pub fixed3: String,
    /// With six decimals.
    pub fixed6: String,
    /// The value divided by 1000, with two decimals.
    pub thousandths_fixed2: String,
    /// The value divided by 60, with one decimal.
    pub per_minute_fixed1: String,
    /// The value divided by 3600, with two decimals.
    pub per_hour_fixed2: String,
    /// The value divided by 3600, with one decimal.
    pub per_hour_fixed1: String,
    /// The value times 1000, cut to a whole number (as a cast to `u64` does: toward zero,
    /// saturating).
    pub thousandfold_whole: u64,
    /// Whether the value is below 1.
    pub below_one: bool,
    /// Whether the value is below 1000.
    pub below_thousand: bool,
}

/// The integer reading of a JSON number.
#[derive(Debug)]
pub enum NumberKind {
    /// A non-negative integer.
    PosInt(u64),
    /// A negative integer.
    NegInt(i64),
    /// A number with a fraction or an exponent.
    Float,
}

/// A JSON number.
#[derive(Debug)]
pub struct JsonNumber {
    pub kind: NumberKind,
    /// Its JSON text, as the payload's encoder writes it.
    pub text: String,
    /// Its reading as a double.
    pub double: DoubleText,
}

/// A decoded JSON value. Object fields keep the order of the decoded map (sorted by key,
/// each key once).
#[derive(Debug)]
pub enum Json {
    Null,
    Bool(bool),
    Number(JsonNumber),
    Str(String),
    Array(Vec<Json>),
    Object(Vec<(String, Json)>),
}


/// The renderings of a number's double reading, as texts.
pub struct DoubleView {
    pub shortest: Seq<char>,
    pub fixed1: Seq<char>,
    pub fixed2: Seq<char>,
    pub fixed3: Seq<char>,
    pub fixed6: Seq<char>,
    pub thousandths_fixed2: Seq<char>,
    pub per_minute_fixed1: Seq<char>,
    pub per_hour_fixed2: Seq<char>,
    pub per_hour_fixed1: Seq<char>,
    pub thousandfold_whole: u64,
    pub below_one: bool,
    pub below_thousand: bool,
}

/// The mathematical value of the renderings of a double.
pub open spec fn double_view(d: DoubleText) -> DoubleView {
    DoubleView {
        shortest: d.shortest@,
        fixed1: d.fixed1@,
        fixed2: d.fixed2@,
        fixed3: d.fixed3@,
        fixed6: d.fixed6@,
        thousandths_fixed2: d.thousandths_fixed2@,
        per_minute_fixed1: d.per_minute_fixed1@,
        per_hour_fixed2: d.per_hour_fixed2@,
        per_hour_fixed1: d.per_hour_fixed1@,
        thousandfold_whole: d.thousandfold_whole,
        below_one: d.below_one,
        below_thousand: d.below_thousand,
    }
}

/// The mathematical value of a decoded JSON value: every part of it, numbers with their
/// kind, text and double renderings.
pub enum JsonView {
    Null,
    Bool(bool),
    Number(NumberKind, Seq<char>, DoubleView),
    Str(Seq<char>),
    Array(Seq<JsonView>),
    Object(Seq<(Seq<char>, JsonView)>),
}

pub open spec fn items_view(s: Seq<Json>) -> Seq<JsonView>
    decreases s,
{
    if s.len() == 0 {
        Seq::empty()
    } else {
        items_view(s.drop_last()).push(json_view(s.last()))
    }
}

pub open spec fn fields_view(s: Seq<(String, Json)>) -> Seq<(Seq<char>, JsonView)>
    decreases s,
{
    if s.len() == 0 {
        Seq::empty()
    } else {
        fields_view(s.drop_last()).push((s.last().0@, json_view(s.last().1)))
    }
}

pub open spec fn json_view(j: Json) -> JsonView
    decreases j,
{
    match j {
        Json::Null => JsonView::Null,
        Json::Bool(b) => JsonView::Bool(b),
        Json::Number(n) => JsonView::Number(n.kind, n.text@, double_view(n.double)),
        Json::Str(s) => JsonView::Str(s@),
        Json::Array(items) => JsonView::Array(items_view(items@)),
        Json::Object(fields) => JsonView::Object(fields_view(fields@)),
    }
}

/// The value of the first field named `key`.
pub open spec fn find_field(fields: Seq<(String, Json)>, key: Seq<char>) -> Option<Json>
    decreases fields.len(),
{
    if fields.len() == 0 {
        None
    } else if fields[0].0@ == key {
        Some(fields[0].1)
    } else {
        find_field(fields.drop_first(), key)
    }
}

/// `j[key]` when `j` is an object that has that field (`Value::get`).
pub open spec fn get(j: Json, key: Seq<char>) -> Option<Json> {
    match j {
        Json::Object(fields) => find_field(fields@, key),
        _ => None,
    }
}

/// The text of a JSON string (`Value::as_str`).
pub open spec fn str_of(j: Json) -> Option<Seq<char>> {
    match j {
        Json::Str(s) => Some(s@),
        _ => None,
    }
}

/// `j[key]` as text, when present and a string.
pub open spec fn get_str(j: Json, key: Seq<char>) -> Option<Seq<char>> {
    match get(j, key) {
        Some(v) => str_of(v),
        None => None,
    }
}

/// A non-negative integer (`Value::as_u64`).
pub open spec fn u64_of(j: Json) -> Option<u64> {
    match j {
        Json::Number(n) => match n.kind {
            NumberKind::PosInt(v) => Some(v),
            _ => None,
        },
        _ => None,
    }
}

/// `j[key]` as a non-negative integer.
pub open spec fn get_u64(j: Json, key: Seq<char>) -> Option<u64> {
    match get(j, key) {
        Some(v) => u64_of(v),
        None => None,
    }
}

/// The items of a JSON array (`Value::as_array`).
pub open spec fn array_of(j: Json) -> Option<Seq<Json>> {
    match j {
        Json::Array(items) => Some(items@),
        _ => None,
    }
}

/// A number taken as a double (`Value::as_f64`).
pub open spec fn double_of(j: Json) -> Option<DoubleText> {
    match j {
        Json::Number(n) => Some(n.double),
        _ => None,
    }
}

/// The boolean of a JSON `true`/`false` (`Value::as_bool`).
pub open spec fn bool_of(j: Json) -> Option<bool> {
    match j {
        Json::Bool(b) => Some(b),
        _ => None,
    }
}

/// What `serde_json::to_string_pretty` writes for a value.
pub uninterp spec fn pretty_text(j: JsonView) -> Seq<char>;

/// What serde_json's `Display` (compact form, `to_string`) writes for a value.
pub uninterp spec fn compact_text(j: JsonView) -> Seq<char>;

#[verifier::external_type_specification]
#[verifier::external_body]
pub struct ExSerdeValue(serde_json::Value);

/// Builds serde_json's value for a decoded value, node for node; numbers are read back from
/// their JSON text.
#[verifier::external_body]
fn to_serde(j: &Json) -> serde_json::Value {
    match j {
        Json::Null => serde_json::Value::Null,
        Json::Bool(b) => serde_json::Value::Bool(*b),
        Json::Number(n) => serde_json::from_str(&n.text).unwrap_or(serde_json::Value::Null),
        Json::Str(s) => serde_json::Value::String(s.clone()),
        Json::Array(items) => serde_json::Value::Array(items.iter().map(to_serde).collect()),
        Json::Object(fields) => serde_json::Value::Object(
            fields.iter().map(|(k, v)| (k.clone(), to_serde(v))).collect(),
        ),
    }
}

/// Trusted: `serde_json::to_string_pretty` (which cannot fail on a `Value`), applied to the
/// value built by `to_serde`. Its result is a function of the value alone, named `pretty_text`.
#[verifier::external_body]
pub(crate) fn pretty(j: &Json) -> (s: String)
    ensures
        s@ == pretty_text(json_view(*j)),
{
    serde_json::to_string_pretty(&to_serde(j)).unwrap_or_default()
}

/// Trusted: serde_json's `Display` for `Value` (compact JSON), applied to the value built by
/// `to_serde`. Its result is a function of the value alone, named `compact_text`.
#[verifier::external_body]
pub(crate) fn compact(j: &Json) -> (s: String)
    ensures
        s@ == compact_text(json_view(*j)),
{
    to_serde(j).to_string()
}


impl DoubleText {
    /// Whether these are the renderings of 0.0.
    pub open spec fn is_zero(self) -> bool {
        &&& self.shortest@ == "0"@
        &&& self.fixed1@ == "0.0"@
        &&& self.fixed2@ == "0.00"@
        &&& self.fixed3@ == "0.000"@
        &&& self.fixed6@ == "0.000000"@
        &&& self.thousandths_fixed2@ == "0.00"@
        &&& self.per_minute_fixed1@ == "0.0"@
        &&& self.per_hour_fixed2@ == "0.00"@
        &&& self.per_hour_fixed1@ == "0.0"@
        &&& self.thousandfold_whole == 0
        &&& self.below_one
        &&& self.below_thousand
    }

    /// The renderings of 0.0, which a missing number defaults to.
    pub fn zero() -> (d: DoubleText)
        ensures
            d.is_zero(),
            d.shortest@ == "0"@,
            d.fixed1@ == "0.0"@,
            d.fixed2@ == "0.00"@,
            d.fixed3@ == "0.000"@,
            d.fixed6@ == "0.000000"@,
            d.thousandths_fixed2@ == "0.00"@,
            d.per_minute_fixed1@ == "0.0"@,
            d.per_hour_fixed2@ == "0.00"@,
            d.per_hour_fixed1@ == "0.0"@,
            d.thousandfold_whole == 0,
            d.below_one,
            d.below_thousand,
    {
        DoubleText {
            shortest: "0".to_owned(),
            fixed1: "0.0".to_owned(),
            fixed2: "0.00".to_owned(),
            fixed3: "0.000".to_owned(),
            fixed6: "0.000000".to_owned(),
            thousandths_fixed2: "0.00".to_owned(),
            per_minute_fixed1: "0.0".to_owned(),
            per_hour_fixed2: "0.00".to_owned(),
            per_hour_fixed1: "0.0".to_owned(),
            thousandfold_whole: 0,
            below_one: true,
            below_thousand: true,
        }
    }
    pub fn copy(&self) -> (r: DoubleText)
        ensures
            r == *self,
    {
        DoubleText {
            shortest: self.shortest.clone(),
            fixed1: self.fixed1.clone(),
            fixed2: self.fixed2.clone(),
            fixed3: self.fixed3.clone(),
            fixed6: self.fixed6.clone(),
            thousandths_fixed2: self.thousandths_fixed2.clone(),
            per_minute_fixed1: self.per_minute_fixed1.clone(),
            per_hour_fixed2: self.per_hour_fixed2.clone(),
            per_hour_fixed1: self.per_hour_fixed1.clone(),
            thousandfold_whole: self.thousandfold_whole,
            below_one: self.below_one,
            below_thousand: self.below_thousand,
        }
    }
}

impl JsonNumber {
    pub fn copy(&self) -> (r: JsonNumber)
        ensures
            r == *self,
    {
        let kind = match self.kind {
            NumberKind::PosInt(v) => NumberKind::PosInt(v),
            NumberKind::NegInt(v) => NumberKind::NegInt(v),
            NumberKind::Float => NumberKind::Float,
        };
        JsonNumber { kind, text: self.text.clone(), double: self.double.copy() }
    }
}

impl Json {
    /// A copy of this value.
    pub fn deep_clone(&self) -> (r: Json)
        ensures
            json_view(r) == json_view(*self),
        decreases self,
    {
        match self {
            Json::Null => Json::Null,
            Json::Bool(b) => Json::Bool(*b),
            Json::Number(n) => Json::Number(n.copy()),
            Json::Str(s) => Json::Str(s.clone()),
            Json::Array(items) => {
                let mut v: Vec<Json> = Vec::new();
                let mut i: usize = 0;
                while i < items.len()
                    invariant
                        i <= items.len(),
                        v.len() == i,
                        items_view(v@) == items_view(items@.take(i as int)),
                        *self == Json::Array(*items),
                    decreases items.len() - i,
                {
                    proof {
                        assert(decreases_to!(*self => (*self)->Array_0));
                        assert(decreases_to!(*items => items[i as int]));
                        assert(decreases_to!(*self => items[i as int]));
                    }
                    let c = items[i].deep_clone();
                    proof {
                        assert(items@.take(i + 1).drop_last() =~= items@.take(i as int));
                    }
                    let ghost before = v@;
                    v.push(c);
                    proof {
                        assert(v@.drop_last() =~= before);
                    }
                    i += 1;
                }
                proof {
                    assert(items@.take(i as int) =~= items@);
                }
                Json::Array(v)
            },
            Json::Object(fields) => {
                let mut v: Vec<(String, Json)> = Vec::new();
                let mut i: usize = 0;
                while i < fields.len()
                    invariant
                        i <= fields.len(),
                        v.len() == i,
                        fields_view(v@) == fields_view(fields@.take(i as int)),
                        *self == Json::Object(*fields),
                    decreases fields.len() - i,
                {
                    proof {
                        assert(decreases_to!(*fields => fields[i as int]));
                        assert(decreases_to!(fields[i as int] => fields[i as int].1));
                        assert(decreases_to!(*self => (*self)->Object_0));
                        assert(decreases_to!(*self => fields[i as int].1));
                    }
                    let c = fields[i].1.deep_clone();
                    let k = fields[i].0.clone();
                    proof {
                        assert(fields@.take(i + 1).drop_last() =~= fields@.take(i as int));
                    }
                    let ghost before = v@;
                    v.push((k, c));
                    proof {
                        assert(v@.drop_last() =~= before);
                    }
                    i += 1;
                }
                proof {
                    assert(fields@.take(i as int) =~= fields@);
                }
                Json::Object(v)
            },
        }
    }
}

/// Copies of `items[start..]`.
pub fn clone_items_from(items: &Vec<Json>, start: usize) -> (r: Vec<Json>)
    requires
        start <= items.len(),
    ensures
        items_view(r@) == items_view(items@.skip(start as int)),
{
    let mut v: Vec<Json> = Vec::new();
    let mut i: usize = start;
    while i < items.len()
        invariant
            start <= i <= items.len(),
            items_view(v@) == items_view(items@.subrange(start as int, i as int)),
        decreases items.len() - i,
    {
        let c = items[i].deep_clone();
        proof {
            assert(items@.subrange(start as int, i + 1).drop_last() =~= items@.subrange(
                start as int,
                i as int,
            ));
        }
        let ghost before = v@;
        v.push(c);
        proof {
            assert(v@.drop_last() =~= before);
        }
        i += 1;
    }
    proof {
        assert(items@.subrange(start as int, i as int) =~= items@.skip(start as int));
    }
    v
}

/// Copies of object fields.
pub fn clone_fields(fields: &Vec<(String, Json)>) -> (r: Vec<(String, Json)>)
    ensures
        fields_view(r@) == fields_view(fields@),
{
    let mut v: Vec<(String, Json)> = Vec::new();
    let mut i: usize = 0;
    while i < fields.len()
        invariant
            i <= fields.len(),
            fields_view(v@) == fields_view(fields@.take(i as int)),
        decreases fields.len() - i,
    {
        let c = fields[i].1.deep_clone();
        let k = fields[i].0.clone();
        proof {
            assert(fields@.take(i + 1).drop_last() =~= fields@.take(i as int));
        }
        let ghost before = v@;
        v.push((k, c));
        proof {
            assert(v@.drop_last() =~= before);
        }
        i += 1;
    }
    proof {
        assert(fields@.take(i as int) =~= fields@);
    }
    v
}

/// A copy of a value that may be absent.
pub fn clone_opt(j: Option<&Json>) -> (r: Option<Json>)
    ensures
        opt_view(r) == match j {
            Some(v) => Some(json_view(*v)),
            None => None,
        },
{
    match j {
        Some(v) => Some(v.deep_clone()),
        None => None,
    }
}

/// The view of a value that may be absent.
pub open spec fn opt_view(o: Option<Json>) -> Option<JsonView> {
    match o {
        Some(v) => Some(json_view(v)),
        None => None,
    }
}

impl Json {
    /// The value of field `key`, when this is an object that has it.
    pub fn get(&self, key: &str) -> (r: Option<&Json>)
        ensures
            match r {
                Some(v) => get(*self, key@) == Some(*v),
                None => get(*self, key@) is None,
            },
    {
        match self {
            Json::Object(fields) => {
                let mut i: usize = 0;
                proof {
                    assert(fields@.skip(0) =~= fields@);
                }
                while i < fields.len()
                    invariant
                        i <= fields.len(),
                        get(*self, key@) == find_field(fields@, key@),
                        find_field(fields@, key@) == find_field(fields@.skip(i as int), key@),
                    decreases fields.len() - i,
                {
                    proof {
                        assert(fields@.skip(i as int).drop_first() =~= fields@.skip(i + 1));
                    }
                    assert(fields@.skip(i as int)[0] == fields@[i as int]);
                    if str_eq(fields[i].0.as_str(), key) {
                        assert(fields@.skip(i as int).len() > 0);
                        assert(find_field(fields@.skip(i as int), key@) == Some(fields@[i as int].1));
                        return Some(&fields[i].1);
                    }
                    i += 1;
                }
                None
            },
            _ => None,
        }
    }

    /// The text of this value, when it is a string.
    pub fn as_str(&self) -> (r: Option<&str>)
        ensures
            match r {
                Some(s) => str_of(*self) == Some(s@),
                None => str_of(*self) is None,
            },
    {
        match self {
            Json::Str(s) => Some(s.as_str()),
            _ => None,
        }
    }

    /// This value as a non-negative integer.
    pub fn as_u64(&self) -> (r: Option<u64>)
        ensures
            r == u64_of(*self),
    {
        match self {
            Json::Number(n) => match n.kind {
                NumberKind::PosInt(v) => Some(v),
                _ => None,
            },
            _ => None,
        }
    }

    /// The items of this value, when it is an array.
    pub fn as_array(&self) -> (r: Option<&Vec<Json>>)
        ensures
            match r {
                Some(items) => array_of(*self) == Some(items@),
                None => array_of(*self) is None,
            },
    {
        match self {
            Json::Array(items) => Some(items),
            _ => None,
        }
    }

    /// The fields of this value, when it is an object.
    pub fn as_object(&self) -> (r: Option<&Vec<(String, Json)>>)
        ensures
            match r {
                Some(fields) => *self == Json::Object(*fields),
                None => !(*self is Object),
            },
    {
        match self {
            Json::Object(fields) => Some(fields),
            _ => None,
        }
    }

    /// This value taken as a double.
    pub fn as_double(&self) -> (r: Option<&DoubleText>)
        ensures
            match r {
                Some(d) => double_of(*self) == Some(*d),
                None => double_of(*self) is None,
            },
    {
        match self {
            Json::Number(n) => Some(&n.double),
            _ => None,
        }
    }

    /// The boolean of this value.
    pub fn as_bool(&self) -> (r: Option<bool>)
        ensures
            r == bool_of(*self),
    {
        match self {
            Json::Bool(b) => Some(*b),
            _ => None,
        }
    }

    pub fn is_null(&self) -> (r: bool)
        ensures
            r == (*self is Null),
    {
        match self {
            Json::Null => true,
            _ => false,
        }
    }

    pub fn is_array(&self) -> (r: bool)
        ensures
            r == (*self is Array),
    {
        match self {
            Json::Array(_) => true,
            _ => false,
        }
    }

    pub fn is_object(&self) -> (r: bool)
        ensures
            r == (*self is Object),
    {
        match self {
            Json::Object(_) => true,
            _ => false,
        }
    }
}

} // verus!
