//! The data records mirroring the JSON resources the service returns —
//! lights, scenes, colors, groups, products — and the per-target result
//! envelope, each with the function that reads it out of a parsed JSON
//! document exactly as its specification function describes.
//!
//! A record field that is not optional must be present in the document
//! with a value of the right kind; an optional field may be absent or
//! `null`. A known field that appears twice makes the document malformed,
//! while unknown fields are ignored. Fields that carry a fractional
//! quantity hold the raw numeral text.

use vstd::prelude::*;

use crate::json::JsonData;
use crate::json::JsonValue;
use crate::json::json_data_of;
use crate::json::lemma_obj_view;
use crate::json::lemma_arr_view;
use crate::json::spec_parse_json;
use crate::json::parse_json;
use crate::numerals::spec_dec_i64;
use crate::numerals::parse_i64;
use crate::params::State;

verus! {

/// How often a key occurs among an object's members.
pub open spec fn spec_key_count(obj: Seq<(Seq<char>, JsonData)>, key: Seq<char>) -> int
    decreases obj.len(),
{
    if obj.len() == 0 {
        0
    } else {
        spec_key_count(obj.drop_last(), key) + (if obj.last().0 == key {
            1int
        } else {
            0int
        })
    }
}

/// The value of the first member with the given key; `Null` if there is
/// none.
pub open spec fn spec_first_val(obj: Seq<(Seq<char>, JsonData)>, key: Seq<char>) -> JsonData
    decreases obj.len(),
{
    if obj.len() == 0 {
        JsonData::Null
    } else if obj[0].0 == key {
        obj[0].1
    } else {
        spec_first_val(obj.drop_first(), key)
    }
}

/// A required text field: present exactly once, a string.
pub open spec fn spec_req_text(obj: Seq<(Seq<char>, JsonData)>, key: Seq<char>) -> Option<
    Seq<char>,
> {
    if spec_key_count(obj, key) == 1 {
        match spec_first_val(obj, key) {
            JsonData::Str(t) => Some(t),
            _ => None,
        }
    } else {
        None
    }
}

/// A required boolean field: present exactly once, a boolean.
pub open spec fn spec_req_bool(obj: Seq<(Seq<char>, JsonData)>, key: Seq<char>) -> Option<bool> {
    if spec_key_count(obj, key) == 1 {
        match spec_first_val(obj, key) {
            JsonData::Bool(b) => Some(b),
            _ => None,
        }
    } else {
        None
    }
}

/// A required numeric field, kept as its raw numeral text.
pub open spec fn spec_req_raw(obj: Seq<(Seq<char>, JsonData)>, key: Seq<char>) -> Option<
    Seq<char>,
> {
    if spec_key_count(obj, key) == 1 {
        match spec_first_val(obj, key) {
            JsonData::Num(t) => Some(t),
            _ => None,
        }
    } else {
        None
    }
}

/// A required integer field: a number whose text is a plain decimal
/// integer that fits.
pub open spec fn spec_req_i64(obj: Seq<(Seq<char>, JsonData)>, key: Seq<char>) -> Option<i64> {
    match spec_req_raw(obj, key) {
        Some(raw) => spec_dec_i64(raw),
        None => None,
    }
}

/// An optional text field: absent or `null` for nothing, a string for a
/// value; anything else, or a repeat, makes the document malformed.
pub open spec fn spec_opt_text(obj: Seq<(Seq<char>, JsonData)>, key: Seq<char>) -> Option<
    Option<Seq<char>>,
> {
    let c = spec_key_count(obj, key);
    if c == 0 {
        Some(None)
    } else if c == 1 {
        match spec_first_val(obj, key) {
            JsonData::Str(t) => Some(Some(t)),
            JsonData::Null => Some(None),
            _ => None,
        }
    } else {
        None
    }
}

/// An optional numeric field, kept as its raw numeral text.
pub open spec fn spec_opt_raw(obj: Seq<(Seq<char>, JsonData)>, key: Seq<char>) -> Option<
    Option<Seq<char>>,
> {
    let c = spec_key_count(obj, key);
    if c == 0 {
        Some(None)
    } else if c == 1 {
        match spec_first_val(obj, key) {
            JsonData::Num(t) => Some(Some(t)),
            JsonData::Null => Some(None),
            _ => None,
        }
    } else {
        None
    }
}

/// An optional boolean field.
pub open spec fn spec_opt_bool(obj: Seq<(Seq<char>, JsonData)>, key: Seq<char>) -> Option<
    Option<bool>,
> {
    let c = spec_key_count(obj, key);
    if c == 0 {
        Some(None)
    } else if c == 1 {
        match spec_first_val(obj, key) {
            JsonData::Bool(b) => Some(Some(b)),
            JsonData::Null => Some(None),
            _ => None,
        }
    } else {
        None
    }
}

/// An optional integer field.
pub open spec fn spec_opt_i64(obj: Seq<(Seq<char>, JsonData)>, key: Seq<char>) -> Option<
    Option<i64>,
> {
    let c = spec_key_count(obj, key);
    if c == 0 {
        Some(None)
    } else if c == 1 {
        match spec_first_val(obj, key) {
            JsonData::Num(t) => match spec_dec_i64(t) {
                Some(n) => Some(Some(n)),
                None => None,
            },
            JsonData::Null => Some(None),
            _ => None,
        }
    } else {
        None
    }
}

/// Where a key stands among an object's members: nowhere, at one index,
/// or repeated.
pub enum FieldSlot {
    Missing,
    At(usize),
    Repeated,
}

/// A key count is never negative, and an object in which a key is counted
/// zero times holds it nowhere.
proof fn lemma_count_zero(obj: Seq<(Seq<char>, JsonData)>, key: Seq<char>)
    ensures
        spec_key_count(obj, key) >= 0,
        spec_key_count(obj, key) == 0 ==> forall|k: int|
            0 <= k < obj.len() ==> #[trigger] obj[k].0 != key,
    decreases obj.len(),
{
    if obj.len() > 0 {
        lemma_count_zero(obj.drop_last(), key);
        if spec_key_count(obj, key) == 0 {
            assert forall|k: int| 0 <= k < obj.len() implies #[trigger] obj[k].0 != key by {
                if k < obj.len() - 1 {
                    assert(obj.drop_last()[k] == obj[k]);
                }
            }
        }
    }
}

/// The value of the first member with the given key stands where the
/// members before it hold other keys.
proof fn lemma_first_val_at(obj: Seq<(Seq<char>, JsonData)>, key: Seq<char>, idx: int)
    requires
        0 <= idx < obj.len(),
        obj[idx].0 == key,
        forall|k: int| 0 <= k < idx ==> #[trigger] obj[k].0 != key,
    ensures
        spec_first_val(obj, key) == obj[idx].1,
    decreases idx,
{
    if idx > 0 {
        lemma_first_val_at(obj.drop_first(), key, idx - 1);
    }
}

/// Finds the key among an object's members.
fn find_field(members: &Vec<(String, JsonValue)>, key: &str) -> (r: FieldSlot)
    ensures
        match r {
            FieldSlot::Missing => spec_key_count(members.deep_view(), key@) == 0,
            FieldSlot::At(idx) => spec_key_count(members.deep_view(), key@) == 1 && idx
                < members.len() && json_data_of(members@[idx as int].1) == spec_first_val(
                members.deep_view(),
                key@,
            ),
            FieldSlot::Repeated => spec_key_count(members.deep_view(), key@) >= 2,
        },
{
    let ghost dv = members.deep_view();
    let key_string = String::from_str(key);
    let mut count: usize = 0;
    let mut first: usize = 0;
    let mut i: usize = 0;
    while i < members.len()
        invariant
            i <= members@.len(),
            dv == members.deep_view(),
            dv.len() == members@.len(),
            key_string@ == key@,
            count as int == spec_key_count(dv.subrange(0, i as int), key@),
            count <= i,
            count >= 1 ==> first < i && dv[first as int].0 == key@ && (forall|k: int|
                0 <= k < first ==> #[trigger] dv[k].0 != key@),
        decreases members@.len() - i,
    {
        proof {
            assert(dv[i as int] == (members@[i as int].0.deep_view(),
            members@[i as int].1.deep_view()));
            assert(dv.subrange(0, i + 1 as int).drop_last() =~= dv.subrange(0, i as int));
        }
        if members[i].0 == key_string {
            if count == 0 {
                first = i;
                proof {
                    lemma_count_zero(dv.subrange(0, i as int), key@);
                    assert forall|k: int| 0 <= k < first implies #[trigger] dv[k].0 != key@ by {
                        assert(dv.subrange(0, i as int)[k] == dv[k]);
                    }
                }
            }
            count = count + 1;
        }
        i += 1;
        proof {
            assert(dv.subrange(0, i as int).last() == dv[i - 1]);
            assert(dv[i - 1].0 == members@[i - 1].0@);
            assert(count as int == spec_key_count(dv.subrange(0, i as int), key@));
        }
    }
    proof {
        assert(dv.subrange(0, members@.len() as int) =~= dv);
    }
    if count == 0 {
        FieldSlot::Missing
    } else if count == 1 {
        proof {
            lemma_first_val_at(dv, key@, first as int);
        }
        FieldSlot::At(first)
    } else {
        FieldSlot::Repeated
    }
}

/// Reads a required text field.
fn req_text(members: &Vec<(String, JsonValue)>, key: &str) -> (r: Option<String>)
    ensures
        match r {
            Some(t) => spec_req_text(members.deep_view(), key@) == Some(t@),
            None => spec_req_text(members.deep_view(), key@) is None,
        },
{
    match find_field(members, key) {
        FieldSlot::At(idx) => match &members[idx].1 {
            JsonValue::Str(t) => Some(t.clone()),
            _ => None,
        },
        _ => None,
    }
}

/// Reads a required boolean field.
fn req_bool(members: &Vec<(String, JsonValue)>, key: &str) -> (r: Option<bool>)
    ensures
        match r {
            Some(b) => spec_req_bool(members.deep_view(), key@) == Some(b),
            None => spec_req_bool(members.deep_view(), key@) is None,
        },
{
    match find_field(members, key) {
        FieldSlot::At(idx) => match &members[idx].1 {
            JsonValue::Bool(b) => Some(*b),
            _ => None,
        },
        _ => None,
    }
}

/// Reads a required numeric field as its raw numeral text.
fn req_raw(members: &Vec<(String, JsonValue)>, key: &str) -> (r: Option<String>)
    ensures
        match r {
            Some(t) => spec_req_raw(members.deep_view(), key@) == Some(t@),
            None => spec_req_raw(members.deep_view(), key@) is None,
        },
{
    match find_field(members, key) {
        FieldSlot::At(idx) => match &members[idx].1 {
            JsonValue::Num(t) => Some(t.clone()),
            _ => None,
        },
        _ => None,
    }
}

/// Reads a required integer field.
fn req_i64(members: &Vec<(String, JsonValue)>, key: &str) -> (r: Option<i64>)
    ensures
        match r {
            Some(n) => spec_req_i64(members.deep_view(), key@) == Some(n),
            None => spec_req_i64(members.deep_view(), key@) is None,
        },
{
    match req_raw(members, key) {
        Some(raw) => parse_i64(raw.as_str()),
        None => None,
    }
}

/// Reads an optional text field.
fn opt_text(members: &Vec<(String, JsonValue)>, key: &str) -> (r: Option<Option<String>>)
    ensures
        match r {
            Some(None) => spec_opt_text(members.deep_view(), key@) == Some(None::<Seq<char>>),
            Some(Some(t)) => spec_opt_text(members.deep_view(), key@) == Some(Some(t@)),
            None => spec_opt_text(members.deep_view(), key@) is None,
        },
{
    match find_field(members, key) {
        FieldSlot::Missing => Some(None),
        FieldSlot::At(idx) => match &members[idx].1 {
            JsonValue::Str(t) => Some(Some(t.clone())),
            JsonValue::Null => Some(None),
            _ => None,
        },
        FieldSlot::Repeated => None,
    }
}

/// Reads an optional numeric field as its raw numeral text.
fn opt_raw(members: &Vec<(String, JsonValue)>, key: &str) -> (r: Option<Option<String>>)
    ensures
        match r {
            Some(None) => spec_opt_raw(members.deep_view(), key@) == Some(None::<Seq<char>>),
            Some(Some(t)) => spec_opt_raw(members.deep_view(), key@) == Some(Some(t@)),
            None => spec_opt_raw(members.deep_view(), key@) is None,
        },
{
    match find_field(members, key) {
        FieldSlot::Missing => Some(None),
        FieldSlot::At(idx) => match &members[idx].1 {
            JsonValue::Num(t) => Some(Some(t.clone())),
            JsonValue::Null => Some(None),
            _ => None,
        },
        FieldSlot::Repeated => None,
    }
}

/// Reads an optional boolean field.
fn opt_bool(members: &Vec<(String, JsonValue)>, key: &str) -> (r: Option<Option<bool>>)
    ensures
        match r {
            Some(None) => spec_opt_bool(members.deep_view(), key@) == Some(None::<bool>),
            Some(Some(b)) => spec_opt_bool(members.deep_view(), key@) == Some(Some(b)),
            None => spec_opt_bool(members.deep_view(), key@) is None,
        },
{
    match find_field(members, key) {
        FieldSlot::Missing => Some(None),
        FieldSlot::At(idx) => match &members[idx].1 {
            JsonValue::Bool(b) => Some(Some(*b)),
            JsonValue::Null => Some(None),
            _ => None,
        },
        FieldSlot::Repeated => None,
    }
}

/// Reads an optional integer field.
fn opt_i64(members: &Vec<(String, JsonValue)>, key: &str) -> (r: Option<Option<i64>>)
    ensures
        match r {
            Some(None) => spec_opt_i64(members.deep_view(), key@) == Some(None::<i64>),
            Some(Some(n)) => spec_opt_i64(members.deep_view(), key@) == Some(Some(n)),
            None => spec_opt_i64(members.deep_view(), key@) is None,
        },
{
    match find_field(members, key) {
        FieldSlot::Missing => Some(None),
        FieldSlot::At(idx) => match &members[idx].1 {
            JsonValue::Num(t) => match parse_i64(t.as_str()) {
                Some(n) => Some(Some(n)),
                None => None,
            },
            JsonValue::Null => Some(None),
            _ => None,
        },
        FieldSlot::Repeated => None,
    }
}

/// The account that owns a scene, at the specification level.
#[verifier::ext_equal]
pub struct AccountData {
    pub uuid: Seq<char>,
}

/// The account that owns a scene.
#[derive(Default, Debug, Clone, PartialEq)]
pub struct Account {
    pub uuid: String,
}

impl View for Account {
    type V = AccountData;

    open spec fn view(&self) -> AccountData {
        AccountData { uuid: self.uuid@ }
    }
}

impl DeepView for Account {
    type V = AccountData;

    open spec fn deep_view(&self) -> AccountData {
        self.view()
    }
}

impl Account {
    /// The account a JSON value describes: an object with a `uuid` string.
    pub open spec fn spec_of_json(j: JsonData) -> Option<AccountData> {
        match j {
            JsonData::Obj(obj) => {
                if spec_req_text(obj, "uuid"@) is Some {
                    Some(AccountData { uuid: spec_req_text(obj, "uuid"@)->0 })
                } else {
                    None
                }
            },
            _ => None,
        }
    }

    /// Reads an account out of a parsed JSON value.
    pub fn of_json(j: &JsonValue) -> (r: Option<Account>)
        ensures
            match r {
                Some(v) => Self::spec_of_json(j@) == Some(v@),
                None => Self::spec_of_json(j@) is None,
            },
    {
        match j {
            JsonValue::Obj(members) => {
                proof {
                    lemma_obj_view(*members);
                }
                match req_text(members, "uuid") {
                    Some(uuid) => Some(Account { uuid }),
                    None => None,
                }
            },
            _ => None,
        }
    }
}

/// The group a light belongs to, at the specification level.
#[verifier::ext_equal]
pub struct GroupData {
    pub id: Seq<char>,
    pub name: Seq<char>,
}

/// The group a light belongs to.
#[derive(Default, Debug, Clone, PartialEq)]
pub struct Group {
    pub id: String,
    pub name: String,
}

impl View for Group {
    type V = GroupData;

    open spec fn view(&self) -> GroupData {
        GroupData { id: self.id@, name: self.name@ }
    }
}

impl DeepView for Group {
    type V = GroupData;

    open spec fn deep_view(&self) -> GroupData {
        self.view()
    }
}

impl Group {
    /// The group a JSON value describes: an object with `id` and `name`
    /// strings.
    pub open spec fn spec_of_json(j: JsonData) -> Option<GroupData> {
        match j {
            JsonData::Obj(obj) => {
                if spec_req_text(obj, "id"@) is Some && spec_req_text(obj, "name"@) is Some {
                    Some(
                        GroupData {
                            id: spec_req_text(obj, "id"@)->0,
                            name: spec_req_text(obj, "name"@)->0,
                        },
                    )
                } else {
                    None
                }
            },
            _ => None,
        }
    }

    /// Reads a group out of a parsed JSON value.
    pub fn of_json(j: &JsonValue) -> (r: Option<Group>)
        ensures
            match r {
                Some(v) => Self::spec_of_json(j@) == Some(v@),
                None => Self::spec_of_json(j@) is None,
            },
    {
        match j {
            JsonValue::Obj(members) => {
                proof {
                    lemma_obj_view(*members);
                }
                match (req_text(members, "id"), req_text(members, "name")) {
                    (Some(id), Some(name)) => Some(Group { id, name }),
                    _ => None,
                }
            },
            _ => None,
        }
    }
}

/// The location a light belongs to, at the specification level.
#[verifier::ext_equal]
pub struct LocationData {
    pub id: Seq<char>,
    pub name: Seq<char>,
}

/// The location a light belongs to.
#[derive(Default, Debug, Clone, PartialEq)]
pub struct Location {
    pub id: String,
    pub name: String,
}

impl View for Location {
    type V = LocationData;

    open spec fn view(&self) -> LocationData {
        LocationData { id: self.id@, name: self.name@ }
    }
}

impl DeepView for Location {
    type V = LocationData;

    open spec fn deep_view(&self) -> LocationData {
        self.view()
    }
}

impl Location {
    /// The location a JSON value describes: an object with `id` and `name`
    /// strings.
    pub open spec fn spec_of_json(j: JsonData) -> Option<LocationData> {
        match j {
            JsonData::Obj(obj) => {
                if spec_req_text(obj, "id"@) is Some && spec_req_text(obj, "name"@) is Some {
                    Some(
                        LocationData {
                            id: spec_req_text(obj, "id"@)->0,
                            name: spec_req_text(obj, "name"@)->0,
                        },
                    )
                } else {
                    None
                }
            },
            _ => None,
        }
    }

    /// Reads a location out of a parsed JSON value.
    pub fn of_json(j: &JsonValue) -> (r: Option<Location>)
        ensures
            match r {
                Some(v) => Self::spec_of_json(j@) == Some(v@),
                None => Self::spec_of_json(j@) is None,
            },
    {
        match j {
            JsonValue::Obj(members) => {
                proof {
                    lemma_obj_view(*members);
                }
                match (req_text(members, "id"), req_text(members, "name")) {
                    (Some(id), Some(name)) => Some(Location { id, name }),
                    _ => None,
                }
            },
            _ => None,
        }
    }
}

/// What a product can do, at the specification level.
#[verifier::ext_equal]
pub struct CapabilitiesData {
    pub has_color: bool,
    pub has_variable_color_temp: bool,
    pub has_ir: bool,
    pub has_hev: bool,
    pub has_chain: bool,
    pub has_matrix: bool,
    pub has_multizone: bool,
    pub min_kelvin: i64,
    pub max_kelvin: i64,
}

/// What a product can do.
#[derive(Default, Debug, Clone, PartialEq)]
pub struct Capabilities {
    pub has_color: bool,
    pub has_variable_color_temp: bool,
    pub has_ir: bool,
    pub has_hev: bool,
    pub has_chain: bool,
    pub has_matrix: bool,
    pub has_multizone: bool,
    pub min_kelvin: i64,
    pub max_kelvin: i64,
}

impl View for Capabilities {
    type V = CapabilitiesData;

    open spec fn view(&self) -> CapabilitiesData {
        CapabilitiesData {
            has_color: self.has_color,
            has_variable_color_temp: self.has_variable_color_temp,
            has_ir: self.has_ir,
            has_hev: self.has_hev,
            has_chain: self.has_chain,
            has_matrix: self.has_matrix,
            has_multizone: self.has_multizone,
            min_kelvin: self.min_kelvin,
            max_kelvin: self.max_kelvin,
        }
    }
}

impl DeepView for Capabilities {
    type V = CapabilitiesData;

    open spec fn deep_view(&self) -> CapabilitiesData {
        self.view()
    }
}

impl Capabilities {
    /// The capability record a JSON value describes: an object with seven
    /// boolean flags and the two kelvin bounds.
    pub open spec fn spec_of_json(j: JsonData) -> Option<CapabilitiesData> {
        match j {
            JsonData::Obj(obj) => {
                if spec_req_bool(obj, "has_color"@) is Some && spec_req_bool(
                    obj,
                    "has_variable_color_temp"@,
                ) is Some && spec_req_bool(obj, "has_ir"@) is Some && spec_req_bool(
                    obj,
                    "has_hev"@,
                ) is Some && spec_req_bool(obj, "has_chain"@) is Some && spec_req_bool(
                    obj,
                    "has_matrix"@,
                ) is Some && spec_req_bool(obj, "has_multizone"@) is Some && spec_req_i64(
                    obj,
                    "min_kelvin"@,
                ) is Some && spec_req_i64(obj, "max_kelvin"@) is Some {
                    Some(
                        CapabilitiesData {
                            has_color: spec_req_bool(obj, "has_color"@)->0,
                            has_variable_color_temp: spec_req_bool(
                                obj,
                                "has_variable_color_temp"@,
                            )->0,
                            has_ir: spec_req_bool(obj, "has_ir"@)->0,
                            has_hev: spec_req_bool(obj, "has_hev"@)->0,
                            has_chain: spec_req_bool(obj, "has_chain"@)->0,
                            has_matrix: spec_req_bool(obj, "has_matrix"@)->0,
                            has_multizone: spec_req_bool(obj, "has_multizone"@)->0,
                            min_kelvin: spec_req_i64(obj, "min_kelvin"@)->0,
                            max_kelvin: spec_req_i64(obj, "max_kelvin"@)->0,
                        },
                    )
                } else {
                    None
                }
            },
            _ => None,
        }
    }

    /// Reads a capability record out of a parsed JSON value.
    pub fn of_json(j: &JsonValue) -> (r: Option<Capabilities>)
        ensures
            match r {
                Some(v) => Self::spec_of_json(j@) == Some(v@),
                None => Self::spec_of_json(j@) is None,
            },
    {
        match j {
            JsonValue::Obj(members) => {
                proof {
                    lemma_obj_view(*members);
                }
                let has_color = req_bool(members, "has_color");
                let has_variable_color_temp = req_bool(members, "has_variable_color_temp");
                let has_ir = req_bool(members, "has_ir");
                let has_hev = req_bool(members, "has_hev");
                let has_chain = req_bool(members, "has_chain");
                let has_matrix = req_bool(members, "has_matrix");
                let has_multizone = req_bool(members, "has_multizone");
                let min_kelvin = req_i64(members, "min_kelvin");
                let max_kelvin = req_i64(members, "max_kelvin");
                match (has_color, has_variable_color_temp, has_ir, has_hev, has_chain, has_matrix,
                has_multizone, min_kelvin, max_kelvin) {
                    (
                        Some(has_color),
                        Some(has_variable_color_temp),
                        Some(has_ir),
                        Some(has_hev),
                        Some(has_chain),
                        Some(has_matrix),
                        Some(has_multizone),
                        Some(min_kelvin),
                        Some(max_kelvin),
                    ) => Some(
                        Capabilities {
                            has_color,
                            has_variable_color_temp,
                            has_ir,
                            has_hev,
                            has_chain,
                            has_matrix,
                            has_multizone,
                            min_kelvin,
                            max_kelvin,
                        },
                    ),
                    _ => None,
                }
            },
            _ => None,
        }
    }
}

/// A per-field error report in a response, at the specification level.
#[verifier::ext_equal]
pub struct ErrorData {
    pub field: Seq<char>,
    pub message: Seq<Seq<char>>,
}

/// A per-field error report in a response.
#[derive(Default, Debug, Clone, PartialEq)]
pub struct Error {
    pub field: String,
    pub message: Vec<String>,
}

impl View for Error {
    type V = ErrorData;

    open spec fn view(&self) -> ErrorData {
        ErrorData { field: self.field@, message: self.message.deep_view() }
    }
}

impl DeepView for Error {
    type V = ErrorData;

    open spec fn deep_view(&self) -> ErrorData {
        self.view()
    }
}

/// The texts of an array of JSON strings, or nothing if any element is
/// something else.
pub open spec fn spec_texts_of(items: Seq<JsonData>) -> Option<Seq<Seq<char>>>
    decreases items.len(),
{
    if items.len() == 0 {
        Some(Seq::empty())
    } else {
        match (spec_texts_of(items.drop_last()), items.last()) {
            (Some(pre), JsonData::Str(t)) => Some(pre.push(t)),
            _ => None,
        }
    }
}

/// An array of JSON strings fails to read whenever one element is not a
/// string.
proof fn lemma_texts_of_fail(items: Seq<JsonData>, k: int)
    requires
        0 <= k < items.len(),
        !(items[k] is Str),
    ensures
        spec_texts_of(items) is None,
    decreases items.len(),
{
    if k < items.len() - 1 {
        assert(items.drop_last()[k] == items[k]);
        lemma_texts_of_fail(items.drop_last(), k);
    }
}

/// Reads an array of JSON strings.
fn texts_of(items: &Vec<JsonValue>) -> (r: Option<Vec<String>>)
    ensures
        match r {
            Some(v) => spec_texts_of(items.deep_view()) == Some(v.deep_view()),
            None => spec_texts_of(items.deep_view()) is None,
        },
{
    let ghost dv = items.deep_view();
    let mut out: Vec<String> = Vec::new();
    let mut i: usize = 0;
    proof {
        assert(dv.subrange(0, 0) =~= Seq::<JsonData>::empty());
        assert(out.deep_view() =~= Seq::<Seq<char>>::empty());
    }
    while i < items.len()
        invariant
            i <= items@.len(),
            dv == items.deep_view(),
            dv.len() == items@.len(),
            spec_texts_of(dv.subrange(0, i as int)) == Some(out.deep_view()),
        decreases items@.len() - i,
    {
        proof {
            assert(dv[i as int] == items@[i as int].deep_view());
            assert(dv.subrange(0, i + 1 as int).drop_last() =~= dv.subrange(0, i as int));
            assert(dv.subrange(0, i + 1 as int).last() == dv[i as int]);
        }
        match &items[i] {
            JsonValue::Str(t) => {
                let ghost pre = out.deep_view();
                out.push(t.clone());
                proof {
                    assert(out.deep_view() =~= pre.push(t@));
                }
            },
            _ => {
                proof {
                    lemma_texts_of_fail(dv, i as int);
                }
                return None;
            },
        }
        i += 1;
    }
    proof {
        assert(dv.subrange(0, items@.len() as int) =~= dv);
    }
    Some(out)
}

impl Error {
    /// The error report a JSON value describes: an object with a `field`
    /// string and a `message` array of strings.
    pub open spec fn spec_of_json(j: JsonData) -> Option<ErrorData> {
        match j {
            JsonData::Obj(obj) => {
                if spec_key_count(obj, "message"@) == 1 {
                    match (spec_req_text(obj, "field"@), spec_first_val(obj, "message"@)) {
                        (Some(field), JsonData::Arr(items)) => match spec_texts_of(items) {
                            Some(message) => Some(ErrorData { field, message }),
                            None => None,
                        },
                        _ => None,
                    }
                } else {
                    None
                }
            },
            _ => None,
        }
    }

    /// Reads an error report out of a parsed JSON value.
    pub fn of_json(j: &JsonValue) -> (r: Option<Error>)
        ensures
            match r {
                Some(v) => Self::spec_of_json(j@) == Some(v@),
                None => Self::spec_of_json(j@) is None,
            },
    {
        match j {
            JsonValue::Obj(members) => {
                proof {
                    lemma_obj_view(*members);
                }
                let field = req_text(members, "field");
                match (field, find_field(members, "message")) {
                    (Some(field), FieldSlot::At(idx)) => match &members[idx].1 {
                        JsonValue::Arr(items) => {
                            proof {
                                lemma_arr_view(*items);
                            }
                            match texts_of(items) {
                                Some(message) => Some(Error { field, message }),
                                None => None,
                            }
                        },
                        _ => None,
                    },
                    _ => None,
                }
            },
            _ => None,
        }
    }
}

/// A light product, at the specification level.
#[verifier::ext_equal]
pub struct ProductData {
    pub name: Seq<char>,
    pub identifier: Seq<char>,
    pub company: Seq<char>,
    pub vendor_id: i64,
    pub product_id: i64,
    pub capabilities: CapabilitiesData,
}

/// A light product.
#[derive(Default, Debug, Clone, PartialEq)]
pub struct Product {
    pub name: String,
    pub identifier: String,
    pub company: String,
    pub vendor_id: i64,
    pub product_id: i64,
    pub capabilities: Capabilities,
}

impl View for Product {
    type V = ProductData;

    open spec fn view(&self) -> ProductData {
        ProductData {
            name: self.name@,
            identifier: self.identifier@,
            company: self.company@,
            vendor_id: self.vendor_id,
            product_id: self.product_id,
            capabilities: self.capabilities@,
        }
    }
}

impl DeepView for Product {
    type V = ProductData;

    open spec fn deep_view(&self) -> ProductData {
        self.view()
    }
}

impl Product {
    /// The product a JSON value describes: three strings, two vendor
    /// numbers, and a nested capability record.
    pub open spec fn spec_of_json(j: JsonData) -> Option<ProductData> {
        match j {
            JsonData::Obj(obj) => {
                if spec_req_text(obj, "name"@) is Some && spec_req_text(obj, "identifier"@)
                    is Some && spec_req_text(obj, "company"@) is Some && spec_req_i64(
                    obj,
                    "vendor_id"@,
                ) is Some && spec_req_i64(obj, "product_id"@) is Some && spec_key_count(
                    obj,
                    "capabilities"@,
                ) == 1 && Capabilities::spec_of_json(spec_first_val(obj, "capabilities"@))
                    is Some {
                    Some(
                        ProductData {
                            name: spec_req_text(obj, "name"@)->0,
                            identifier: spec_req_text(obj, "identifier"@)->0,
                            company: spec_req_text(obj, "company"@)->0,
                            vendor_id: spec_req_i64(obj, "vendor_id"@)->0,
                            product_id: spec_req_i64(obj, "product_id"@)->0,
                            capabilities: Capabilities::spec_of_json(
                                spec_first_val(obj, "capabilities"@),
                            )->0,
                        },
                    )
                } else {
                    None
                }
            },
            _ => None,
        }
    }

    /// Reads a product out of a parsed JSON value.
    pub fn of_json(j: &JsonValue) -> (r: Option<Product>)
        ensures
            match r {
                Some(v) => Self::spec_of_json(j@) == Some(v@),
                None => Self::spec_of_json(j@) is None,
            },
    {
        match j {
            JsonValue::Obj(members) => {
                proof {
                    lemma_obj_view(*members);
                }
                let name = req_text(members, "name");
                let identifier = req_text(members, "identifier");
                let company = req_text(members, "company");
                let vendor_id = req_i64(members, "vendor_id");
                let product_id = req_i64(members, "product_id");
                let capabilities = match find_field(members, "capabilities") {
                    FieldSlot::At(idx) => Capabilities::of_json(&members[idx].1),
                    _ => None,
                };
                match (name, identifier, company, vendor_id, product_id, capabilities) {
                    (
                        Some(name),
                        Some(identifier),
                        Some(company),
                        Some(vendor_id),
                        Some(product_id),
                        Some(capabilities),
                    ) => Some(
                        Product { name, identifier, company, vendor_id, product_id, capabilities },
                    ),
                    _ => None,
                }
            },
            _ => None,
        }
    }
}

/// A sequence of error reports read from an array of JSON values.
pub open spec fn spec_errors_of(items: Seq<JsonData>) -> Option<Seq<ErrorData>>
    decreases items.len(),
{
    if items.len() == 0 {
        Some(Seq::empty())
    } else {
        match (spec_errors_of(items.drop_last()), Error::spec_of_json(items.last())) {
            (Some(pre), Some(e)) => Some(pre.push(e)),
            _ => None,
        }
    }
}

/// An array of error reports fails to read whenever one element does.
proof fn lemma_errors_of_fail(items: Seq<JsonData>, k: int)
    requires
        0 <= k < items.len(),
        Error::spec_of_json(items[k]) is None,
    ensures
        spec_errors_of(items) is None,
    decreases items.len(),
{
    if k < items.len() - 1 {
        assert(items.drop_last()[k] == items[k]);
        lemma_errors_of_fail(items.drop_last(), k);
    }
}

/// Reads an array of error reports.
fn errors_of(items: &Vec<JsonValue>) -> (r: Option<Vec<Error>>)
    ensures
        match r {
            Some(v) => spec_errors_of(items.deep_view()) == Some(v.deep_view()),
            None => spec_errors_of(items.deep_view()) is None,
        },
{
    let ghost dv = items.deep_view();
    let mut out: Vec<Error> = Vec::new();
    let mut i: usize = 0;
    proof {
        assert(dv.subrange(0, 0) =~= Seq::<JsonData>::empty());
        assert(out.deep_view() =~= Seq::<ErrorData>::empty());
    }
    while i < items.len()
        invariant
            i <= items@.len(),
            dv == items.deep_view(),
            dv.len() == items@.len(),
            spec_errors_of(dv.subrange(0, i as int)) == Some(out.deep_view()),
        decreases items@.len() - i,
    {
        proof {
            assert(dv[i as int] == items@[i as int].deep_view());
            assert(dv.subrange(0, i + 1 as int).drop_last() =~= dv.subrange(0, i as int));
            assert(dv.subrange(0, i + 1 as int).last() == dv[i as int]);
        }
        match Error::of_json(&items[i]) {
            Some(e) => {
                let ghost pre = out.deep_view();
                proof {
                    assert(e.deep_view() == e@);
                }
                out.push(e);
                proof {
                    assert(out.deep_view() =~= pre.push(out@.last().deep_view()));
                }
            },
            None => {
                proof {
                    lemma_errors_of_fail(dv, i as int);
                }
                return None;
            },
        }
        i += 1;
    }
    proof {
        assert(dv.subrange(0, items@.len() as int) =~= dv);
    }
    Some(out)
}

/// An optional field holding an array of error reports.
pub open spec fn spec_opt_errors(obj: Seq<(Seq<char>, JsonData)>, key: Seq<char>) -> Option<
    Option<Seq<ErrorData>>,
> {
    let c = spec_key_count(obj, key);
    if c == 0 {
        Some(None)
    } else if c == 1 {
        match spec_first_val(obj, key) {
            JsonData::Arr(items) => match spec_errors_of(items) {
                Some(es) => Some(Some(es)),
                None => None,
            },
            JsonData::Null => Some(None),
            _ => None,
        }
    } else {
        None
    }
}

/// Reads an optional field holding an array of error reports.
fn opt_errors(members: &Vec<(String, JsonValue)>, key: &str) -> (r: Option<Option<Vec<Error>>>)
    ensures
        match r {
            Some(None) => spec_opt_errors(members.deep_view(), key@) == Some(
                None::<Seq<ErrorData>>,
            ),
            Some(Some(es)) => spec_opt_errors(members.deep_view(), key@) == Some(
                Some(es.deep_view()),
            ),
            None => spec_opt_errors(members.deep_view(), key@) is None,
        },
{
    match find_field(members, key) {
        FieldSlot::Missing => Some(None),
        FieldSlot::At(idx) => match &members[idx].1 {
            JsonValue::Arr(items) => {
                proof {
                    lemma_arr_view(*items);
                }
                match errors_of(items) {
                    Some(es) => Some(Some(es)),
                    None => None,
                }
            },
            JsonValue::Null => Some(None),
            _ => None,
        },
        FieldSlot::Repeated => None,
    }
}

/// A color reading, at the specification level.
#[verifier::ext_equal]
pub struct ColorData {
    pub hue: Option<Seq<char>>,
    pub saturation: Option<Seq<char>>,
    pub kelvin: Option<i64>,
    pub brightness: Option<Seq<char>>,
    pub error: Option<Seq<char>>,
    pub errors: Option<Seq<ErrorData>>,
}

/// A color, as the service reports it: every part optional, since a
/// partial specification (just a kelvin value, say) is a valid color.
/// `hue`, `saturation` and `brightness` carry fractional quantities and
/// hold the raw numeral text.
#[derive(Default, Debug, Clone, PartialEq)]
pub struct Color {
    pub hue: Option<String>,
    pub saturation: Option<String>,
    pub kelvin: Option<i64>,
    pub brightness: Option<String>,
    pub error: Option<String>,
    pub errors: Option<Vec<Error>>,
}

impl View for Color {
    type V = ColorData;

    open spec fn view(&self) -> ColorData {
        ColorData {
            hue: self.hue.deep_view(),
            saturation: self.saturation.deep_view(),
            kelvin: self.kelvin,
            brightness: self.brightness.deep_view(),
            error: self.error.deep_view(),
            errors: self.errors.deep_view(),
        }
    }
}

impl DeepView for Color {
    type V = ColorData;

    open spec fn deep_view(&self) -> ColorData {
        self.view()
    }
}

impl Color {
    /// The color a JSON value describes: an object of optional parts.
    pub open spec fn spec_of_json(j: JsonData) -> Option<ColorData> {
        match j {
            JsonData::Obj(obj) => {
                if spec_opt_raw(obj, "hue"@) is Some && spec_opt_raw(obj, "saturation"@) is Some
                    && spec_opt_i64(obj, "kelvin"@) is Some && spec_opt_raw(obj, "brightness"@)
                    is Some && spec_opt_text(obj, "error"@) is Some && spec_opt_errors(
                    obj,
                    "errors"@,
                ) is Some {
                    Some(
                        ColorData {
                            hue: spec_opt_raw(obj, "hue"@)->0,
                            saturation: spec_opt_raw(obj, "saturation"@)->0,
                            kelvin: spec_opt_i64(obj, "kelvin"@)->0,
                            brightness: spec_opt_raw(obj, "brightness"@)->0,
                            error: spec_opt_text(obj, "error"@)->0,
                            errors: spec_opt_errors(obj, "errors"@)->0,
                        },
                    )
                } else {
                    None
                }
            },
            _ => None,
        }
    }

    /// The color a whole response body describes.
    pub open spec fn spec_of_body(s: Seq<char>) -> Option<ColorData> {
        match spec_parse_json(s) {
            Some(j) => Self::spec_of_json(j),
            None => None,
        }
    }

    /// Parses a response body into a color.
    pub fn of_body(body: &str) -> (r: Option<Color>)
        ensures
            match r {
                Some(v) => Self::spec_of_body(body@) == Some(v@),
                None => Self::spec_of_body(body@) is None,
            },
    {
        match parse_json(body) {
            Some(j) => Self::of_json(&j),
            None => None,
        }
    }

    /// Reads a color out of a parsed JSON value.
    pub fn of_json(j: &JsonValue) -> (r: Option<Color>)
        ensures
            match r {
                Some(v) => Self::spec_of_json(j@) == Some(v@),
                None => Self::spec_of_json(j@) is None,
            },
    {
        match j {
            JsonValue::Obj(members) => {
                proof {
                    lemma_obj_view(*members);
                }
                let hue = opt_raw(members, "hue");
                let saturation = opt_raw(members, "saturation");
                let kelvin = opt_i64(members, "kelvin");
                let brightness = opt_raw(members, "brightness");
                let error = opt_text(members, "error");
                let errors = opt_errors(members, "errors");
                match (hue, saturation, kelvin, brightness, error, errors) {
                    (
                        Some(hue),
                        Some(saturation),
                        Some(kelvin),
                        Some(brightness),
                        Some(error),
                        Some(errors),
                    ) => Some(Color { hue, saturation, kelvin, brightness, error, errors }),
                    _ => None,
                }
            },
            _ => None,
        }
    }
}

/// One per-target outcome in a response envelope, at the specification
/// level.
#[verifier::ext_equal]
pub struct LiFxResultData {
    pub id: Seq<char>,
    pub label: Seq<char>,
    pub status: Seq<char>,
}

/// One per-target outcome in a response envelope.
#[derive(Default, Debug, Clone, PartialEq)]
pub struct LiFxResult {
    pub id: String,
    pub label: String,
    pub status: String,
}

impl View for LiFxResult {
    type V = LiFxResultData;

    open spec fn view(&self) -> LiFxResultData {
        LiFxResultData { id: self.id@, label: self.label@, status: self.status@ }
    }
}

impl DeepView for LiFxResult {
    type V = LiFxResultData;

    open spec fn deep_view(&self) -> LiFxResultData {
        self.view()
    }
}

impl LiFxResult {
    /// The outcome a JSON value describes: `id`, `label` and `status`
    /// strings.
    pub open spec fn spec_of_json(j: JsonData) -> Option<LiFxResultData> {
        match j {
            JsonData::Obj(obj) => {
                if spec_req_text(obj, "id"@) is Some && spec_req_text(obj, "label"@) is Some
                    && spec_req_text(obj, "status"@) is Some {
                    Some(
                        LiFxResultData {
                            id: spec_req_text(obj, "id"@)->0,
                            label: spec_req_text(obj, "label"@)->0,
                            status: spec_req_text(obj, "status"@)->0,
                        },
                    )
                } else {
                    None
                }
            },
            _ => None,
        }
    }

    /// Reads one outcome out of a parsed JSON value.
    pub fn of_json(j: &JsonValue) -> (r: Option<LiFxResult>)
        ensures
            match r {
                Some(v) => Self::spec_of_json(j@) == Some(v@),
                None => Self::spec_of_json(j@) is None,
            },
    {
        match j {
            JsonValue::Obj(members) => {
                proof {
                    lemma_obj_view(*members);
                }
                match (req_text(members, "id"), req_text(members, "label"), req_text(
                    members,
                    "status",
                )) {
                    (Some(id), Some(label), Some(status)) => Some(
                        LiFxResult { id, label, status },
                    ),
                    _ => None,
                }
            },
            _ => None,
        }
    }
}

/// A sequence of per-target outcomes read from an array of JSON values.
pub open spec fn spec_results_of(items: Seq<JsonData>) -> Option<Seq<LiFxResultData>>
    decreases items.len(),
{
    if items.len() == 0 {
        Some(Seq::empty())
    } else {
        match (spec_results_of(items.drop_last()), LiFxResult::spec_of_json(items.last())) {
            (Some(pre), Some(e)) => Some(pre.push(e)),
            _ => None,
        }
    }
}

/// An array of outcomes fails to read whenever one element does.
proof fn lemma_results_of_fail(items: Seq<JsonData>, k: int)
    requires
        0 <= k < items.len(),
        LiFxResult::spec_of_json(items[k]) is None,
    ensures
        spec_results_of(items) is None,
    decreases items.len(),
{
    if k < items.len() - 1 {
        assert(items.drop_last()[k] == items[k]);
        lemma_results_of_fail(items.drop_last(), k);
    }
}

/// Reads an array of per-target outcomes.
fn results_of(items: &Vec<JsonValue>) -> (r: Option<Vec<LiFxResult>>)
    ensures
        match r {
            Some(v) => spec_results_of(items.deep_view()) == Some(v.deep_view()),
            None => spec_results_of(items.deep_view()) is None,
        },
{
    let ghost dv = items.deep_view();
    let mut out: Vec<LiFxResult> = Vec::new();
    let mut i: usize = 0;
    proof {
        assert(dv.subrange(0, 0) =~= Seq::<JsonData>::empty());
        assert(out.deep_view() =~= Seq::<LiFxResultData>::empty());
    }
    while i < items.len()
        invariant
            i <= items@.len(),
            dv == items.deep_view(),
            dv.len() == items@.len(),
            spec_results_of(dv.subrange(0, i as int)) == Some(out.deep_view()),
        decreases items@.len() - i,
    {
        proof {
            assert(dv[i as int] == items@[i as int].deep_view());
            assert(dv.subrange(0, i + 1 as int).drop_last() =~= dv.subrange(0, i as int));
            assert(dv.subrange(0, i + 1 as int).last() == dv[i as int]);
        }
        match LiFxResult::of_json(&items[i]) {
            Some(e) => {
                let ghost pre = out.deep_view();
                out.push(e);
                proof {
                    assert(out.deep_view() =~= pre.push(out@.last().deep_view()));
                }
            },
            None => {
                proof {
                    lemma_results_of_fail(dv, i as int);
                }
                return None;
            },
        }
        i += 1;
    }
    proof {
        assert(dv.subrange(0, items@.len() as int) =~= dv);
    }
    Some(out)
}

/// A response envelope, at the specification level.
#[verifier::ext_equal]
pub struct LiFxResultsData {
    pub results: Option<Seq<LiFxResultData>>,
    pub error: Option<Seq<char>>,
}

/// The response envelope of every command: a list of per-target outcomes
/// and an optional top-level error text. An application-level failure
/// arrives here, inside a successfully delivered response, never through
/// the transport error channel.
#[derive(Default, Debug, Clone, PartialEq)]
pub struct LiFxResults {
    pub results: Option<Vec<LiFxResult>>,
    pub error: Option<String>,
}

impl View for LiFxResults {
    type V = LiFxResultsData;

    open spec fn view(&self) -> LiFxResultsData {
        LiFxResultsData { results: self.results.deep_view(), error: self.error.deep_view() }
    }
}

impl DeepView for LiFxResults {
    type V = LiFxResultsData;

    open spec fn deep_view(&self) -> LiFxResultsData {
        self.view()
    }
}

impl LiFxResults {
    /// The envelope a JSON value describes: an optional `results` array
    /// and an optional `error` string.
    pub open spec fn spec_of_json(j: JsonData) -> Option<LiFxResultsData> {
        match j {
            JsonData::Obj(obj) => {
                let c = spec_key_count(obj, "results"@);
                let results: Option<Option<Seq<LiFxResultData>>> = if c == 0 {
                    Some(None)
                } else if c == 1 {
                    match spec_first_val(obj, "results"@) {
                        JsonData::Arr(items) => match spec_results_of(items) {
                            Some(rs) => Some(Some(rs)),
                            None => None,
                        },
                        JsonData::Null => Some(None),
                        _ => None,
                    }
                } else {
                    None
                };
                match (results, spec_opt_text(obj, "error"@)) {
                    (Some(results), Some(error)) => Some(LiFxResultsData { results, error }),
                    _ => None,
                }
            },
            _ => None,
        }
    }

    /// Reads an envelope out of a parsed JSON value.
    pub fn of_json(j: &JsonValue) -> (r: Option<LiFxResults>)
        ensures
            match r {
                Some(v) => Self::spec_of_json(j@) == Some(v@),
                None => Self::spec_of_json(j@) is None,
            },
    {
        match j {
            JsonValue::Obj(members) => {
                proof {
                    lemma_obj_view(*members);
                }
                let results = match find_field(members, "results") {
                    FieldSlot::Missing => Some(None),
                    FieldSlot::At(idx) => match &members[idx].1 {
                        JsonValue::Arr(items) => {
                            proof {
                                lemma_arr_view(*items);
                            }
                            match results_of(items) {
                                Some(rs) => Some(Some(rs)),
                                None => None,
                            }
                        },
                        JsonValue::Null => Some(None),
                        _ => None,
                    },
                    FieldSlot::Repeated => None,
                };
                let error = opt_text(members, "error");
                match (results, error) {
                    (Some(results), Some(error)) => Some(LiFxResults { results, error }),
                    _ => None,
                }
            },
            _ => None,
        }
    }

    /// The envelope a whole response body describes, if the body is a JSON
    /// document of that shape.
    pub open spec fn spec_of_body(s: Seq<char>) -> Option<LiFxResultsData> {
        match spec_parse_json(s) {
            Some(j) => Self::spec_of_json(j),
            None => None,
        }
    }

    /// Parses a response body into the envelope.
    pub fn of_body(body: &str) -> (r: Option<LiFxResults>)
        ensures
            match r {
                Some(v) => Self::spec_of_body(body@) == Some(v@),
                None => Self::spec_of_body(body@) is None,
            },
    {
        match parse_json(body) {
            Some(j) => Self::of_json(&j),
            None => None,
        }
    }
}

/// A command state, at the specification level.
#[verifier::ext_equal]
pub struct StateData {
    pub power: Option<Seq<char>>,
    pub color: Option<Seq<char>>,
    pub brightness: Option<Seq<char>>,
    pub duration: Option<Seq<char>>,
    pub infrared: Option<Seq<char>>,
    pub selector: Option<Seq<char>>,
    pub fast: Option<bool>,
}

impl View for State {
    type V = StateData;

    open spec fn view(&self) -> StateData {
        StateData {
            power: self.power.deep_view(),
            color: self.color.deep_view(),
            brightness: self.brightness.deep_view(),
            duration: self.duration.deep_view(),
            infrared: self.infrared.deep_view(),
            selector: self.selector.deep_view(),
            fast: self.fast,
        }
    }
}

impl DeepView for State {
    type V = StateData;

    open spec fn deep_view(&self) -> StateData {
        self.view()
    }
}

/// The state a JSON value describes: an object of optional fields, the
/// fractional ones kept as raw numeral text.
pub open spec fn spec_state_of_json(j: JsonData) -> Option<StateData> {
    match j {
        JsonData::Obj(obj) => {
            if spec_opt_text(obj, "power"@) is Some && spec_opt_text(obj, "color"@) is Some
                && spec_opt_raw(obj, "brightness"@) is Some && spec_opt_raw(obj, "duration"@)
                is Some && spec_opt_raw(obj, "infrared"@) is Some && spec_opt_text(
                obj,
                "selector"@,
            ) is Some && spec_opt_bool(obj, "fast"@) is Some {
                Some(
                    StateData {
                        power: spec_opt_text(obj, "power"@)->0,
                        color: spec_opt_text(obj, "color"@)->0,
                        brightness: spec_opt_raw(obj, "brightness"@)->0,
                        duration: spec_opt_raw(obj, "duration"@)->0,
                        infrared: spec_opt_raw(obj, "infrared"@)->0,
                        selector: spec_opt_text(obj, "selector"@)->0,
                        fast: spec_opt_bool(obj, "fast"@)->0,
                    },
                )
            } else {
                None
            }
        },
        _ => None,
    }
}

/// Reads a command state out of a parsed JSON value.
pub fn state_of_json(j: &JsonValue) -> (r: Option<State>)
    ensures
        match r {
            Some(v) => spec_state_of_json(j@) == Some(v@),
            None => spec_state_of_json(j@) is None,
        },
{
    match j {
        JsonValue::Obj(members) => {
            proof {
                lemma_obj_view(*members);
            }
            let power = opt_text(members, "power");
            let color = opt_text(members, "color");
            let brightness = opt_raw(members, "brightness");
            let duration = opt_raw(members, "duration");
            let infrared = opt_raw(members, "infrared");
            let selector = opt_text(members, "selector");
            let fast = opt_bool(members, "fast");
            match (power, color, brightness, duration, infrared, selector, fast) {
                (
                    Some(power),
                    Some(color),
                    Some(brightness),
                    Some(duration),
                    Some(infrared),
                    Some(selector),
                    Some(fast),
                ) => Some(State { power, color, brightness, duration, infrared, selector, fast }),
                _ => None,
            }
        },
        _ => None,
    }
}

/// A sequence of command states read from an array of JSON values.
pub open spec fn spec_states_of(items: Seq<JsonData>) -> Option<Seq<StateData>>
    decreases items.len(),
{
    if items.len() == 0 {
        Some(Seq::empty())
    } else {
        match (spec_states_of(items.drop_last()), spec_state_of_json(items.last())) {
            (Some(pre), Some(e)) => Some(pre.push(e)),
            _ => None,
        }
    }
}

/// An array of states fails to read whenever one element does.
proof fn lemma_states_of_fail(items: Seq<JsonData>, k: int)
    requires
        0 <= k < items.len(),
        spec_state_of_json(items[k]) is None,
    ensures
        spec_states_of(items) is None,
    decreases items.len(),
{
    if k < items.len() - 1 {
        assert(items.drop_last()[k] == items[k]);
        lemma_states_of_fail(items.drop_last(), k);
    }
}

/// Reads an array of command states.
fn states_of(items: &Vec<JsonValue>) -> (r: Option<Vec<State>>)
    ensures
        match r {
            Some(v) => spec_states_of(items.deep_view()) == Some(v.deep_view()),
            None => spec_states_of(items.deep_view()) is None,
        },
{
    let ghost dv = items.deep_view();
    let mut out: Vec<State> = Vec::new();
    let mut i: usize = 0;
    proof {
        assert(dv.subrange(0, 0) =~= Seq::<JsonData>::empty());
        assert(out.deep_view() =~= Seq::<StateData>::empty());
    }
    while i < items.len()
        invariant
            i <= items@.len(),
            dv == items.deep_view(),
            dv.len() == items@.len(),
            spec_states_of(dv.subrange(0, i as int)) == Some(out.deep_view()),
        decreases items@.len() - i,
    {
        proof {
            assert(dv[i as int] == items@[i as int].deep_view());
            assert(dv.subrange(0, i + 1 as int).drop_last() =~= dv.subrange(0, i as int));
            assert(dv.subrange(0, i + 1 as int).last() == dv[i as int]);
        }
        match state_of_json(&items[i]) {
            Some(e) => {
                let ghost pre = out.deep_view();
                out.push(e);
                proof {
                    assert(out.deep_view() =~= pre.push(out@.last().deep_view()));
                }
            },
            None => {
                proof {
                    lemma_states_of_fail(dv, i as int);
                }
                return None;
            },
        }
        i += 1;
    }
    proof {
        assert(dv.subrange(0, items@.len() as int) =~= dv);
    }
    Some(out)
}

/// A light snapshot, at the specification level.
#[verifier::ext_equal]
pub struct LightData {
    pub id: Seq<char>,
    pub uuid: Seq<char>,
    pub label: Seq<char>,
    pub connected: bool,
    pub power: Seq<char>,
    pub color: ColorData,
    pub brightness: Seq<char>,
    pub group: GroupData,
    pub location: LocationData,
    pub product: ProductData,
    pub last_seen: Seq<char>,
    pub seconds_since_seen: i64,
    pub error: Option<Seq<char>>,
    pub errors: Option<Seq<ErrorData>>,
}

/// An immutable snapshot of one light, as a listing call returns it. It is
/// never mutated locally: a change is expressed by sending a new state to
/// the service and listing again. `brightness` carries a fractional
/// quantity and holds the raw numeral text.
#[derive(Default, Debug, Clone, PartialEq)]
pub struct Light {
    pub id: String,
    pub uuid: String,
    pub label: String,
    pub connected: bool,
    pub power: String,
    pub color: Color,
    pub brightness: String,
    pub group: Group,
    pub location: Location,
    pub product: Product,
    pub last_seen: String,
    pub seconds_since_seen: i64,
    pub error: Option<String>,
    pub errors: Option<Vec<Error>>,
}

impl View for Light {
    type V = LightData;

    open spec fn view(&self) -> LightData {
        LightData {
            id: self.id@,
            uuid: self.uuid@,
            label: self.label@,
            connected: self.connected,
            power: self.power@,
            color: self.color@,
            brightness: self.brightness@,
            group: self.group@,
            location: self.location@,
            product: self.product@,
            last_seen: self.last_seen@,
            seconds_since_seen: self.seconds_since_seen,
            error: self.error.deep_view(),
            errors: self.errors.deep_view(),
        }
    }
}

impl DeepView for Light {
    type V = LightData;

    open spec fn deep_view(&self) -> LightData {
        self.view()
    }
}

impl Light {
    /// The light a JSON value describes: identity and label strings, the
    /// connected flag and power text, a nested color, numeral brightness
    /// text, nested group, location and product records, the last-seen
    /// timestamp text and seconds count, and the optional error fields.
    pub open spec fn spec_of_json(j: JsonData) -> Option<LightData> {
        match j {
            JsonData::Obj(obj) => {
                if spec_req_text(obj, "id"@) is Some && spec_req_text(obj, "uuid"@) is Some
                    && spec_req_text(obj, "label"@) is Some && spec_req_bool(obj, "connected"@)
                    is Some && spec_req_text(obj, "power"@) is Some && spec_key_count(obj, "color"@)
                    == 1 && Color::spec_of_json(spec_first_val(obj, "color"@)) is Some
                    && spec_req_raw(obj, "brightness"@) is Some && spec_key_count(obj, "group"@)
                    == 1 && Group::spec_of_json(spec_first_val(obj, "group"@)) is Some
                    && spec_key_count(obj, "location"@) == 1 && Location::spec_of_json(
                    spec_first_val(obj, "location"@),
                ) is Some && spec_key_count(obj, "product"@) == 1 && Product::spec_of_json(
                    spec_first_val(obj, "product"@),
                ) is Some && spec_req_text(obj, "last_seen"@) is Some && spec_req_i64(
                    obj,
                    "seconds_since_seen"@,
                ) is Some && spec_opt_text(obj, "error"@) is Some && spec_opt_errors(
                    obj,
                    "errors"@,
                ) is Some {
                    Some(
                        LightData {
                            id: spec_req_text(obj, "id"@)->0,
                            uuid: spec_req_text(obj, "uuid"@)->0,
                            label: spec_req_text(obj, "label"@)->0,
                            connected: spec_req_bool(obj, "connected"@)->0,
                            power: spec_req_text(obj, "power"@)->0,
                            color: Color::spec_of_json(spec_first_val(obj, "color"@))->0,
                            brightness: spec_req_raw(obj, "brightness"@)->0,
                            group: Group::spec_of_json(spec_first_val(obj, "group"@))->0,
                            location: Location::spec_of_json(spec_first_val(obj, "location"@))->0,
                            product: Product::spec_of_json(spec_first_val(obj, "product"@))->0,
                            last_seen: spec_req_text(obj, "last_seen"@)->0,
                            seconds_since_seen: spec_req_i64(obj, "seconds_since_seen"@)->0,
                            error: spec_opt_text(obj, "error"@)->0,
                            errors: spec_opt_errors(obj, "errors"@)->0,
                        },
                    )
                } else {
                    None
                }
            },
            _ => None,
        }
    }

    /// Reads a light out of a parsed JSON value.
    #[verifier::rlimit(100)]
    pub fn of_json(j: &JsonValue) -> (r: Option<Light>)
        ensures
            match r {
                Some(v) => Self::spec_of_json(j@) == Some(v@),
                None => Self::spec_of_json(j@) is None,
            },
    {
        match j {
            JsonValue::Obj(members) => {
                proof {
                    lemma_obj_view(*members);
                }
                let id = req_text(members, "id");
                let uuid = req_text(members, "uuid");
                let label = req_text(members, "label");
                let connected = req_bool(members, "connected");
                let power = req_text(members, "power");
                let color = match find_field(members, "color") {
                    FieldSlot::At(idx) => Color::of_json(&members[idx].1),
                    _ => None,
                };
                let brightness = req_raw(members, "brightness");
                let group = match find_field(members, "group") {
                    FieldSlot::At(idx) => Group::of_json(&members[idx].1),
                    _ => None,
                };
                let location = match find_field(members, "location") {
                    FieldSlot::At(idx) => Location::of_json(&members[idx].1),
                    _ => None,
                };
                let product = match find_field(members, "product") {
                    FieldSlot::At(idx) => Product::of_json(&members[idx].1),
                    _ => None,
                };
                let last_seen = req_text(members, "last_seen");
                let seconds_since_seen = req_i64(members, "seconds_since_seen");
                let error = opt_text(members, "error");
                let errors = opt_errors(members, "errors");
                if id.is_some() && uuid.is_some() && label.is_some() && connected.is_some()
                    && power.is_some() && color.is_some() && brightness.is_some()
                    && group.is_some() && location.is_some() && product.is_some()
                    && last_seen.is_some() && seconds_since_seen.is_some() && error.is_some()
                    && errors.is_some() {
                    Some(
                        Light {
                            id: id.unwrap(),
                            uuid: uuid.unwrap(),
                            label: label.unwrap(),
                            connected: connected.unwrap(),
                            power: power.unwrap(),
                            color: color.unwrap(),
                            brightness: brightness.unwrap(),
                            group: group.unwrap(),
                            location: location.unwrap(),
                            product: product.unwrap(),
                            last_seen: last_seen.unwrap(),
                            seconds_since_seen: seconds_since_seen.unwrap(),
                            error: error.unwrap(),
                            errors: errors.unwrap(),
                        },
                    )
                } else {
                    None
                }
            },
            _ => None,
        }
    }
}

/// A scene, at the specification level.
#[verifier::ext_equal]
pub struct SceneData {
    pub uuid: Seq<char>,
    pub name: Seq<char>,
    pub account: AccountData,
    pub states: Seq<StateData>,
    pub created_at: i64,
    pub updated_at: i64,
    pub error: Option<Seq<char>>,
    pub errors: Option<Seq<ErrorData>>,
}

/// A stored scene: its identity, its owning account, the ordered states it
/// applies, and its creation and update timestamps.
#[derive(Default, Debug, Clone, PartialEq)]
pub struct Scene {
    pub uuid: String,
    pub name: String,
    pub account: Account,
    pub states: Vec<State>,
    pub created_at: i64,
    pub updated_at: i64,
    pub error: Option<String>,
    pub errors: Option<Vec<Error>>,
}

impl View for Scene {
    type V = SceneData;

    open spec fn view(&self) -> SceneData {
        SceneData {
            uuid: self.uuid@,
            name: self.name@,
            account: self.account@,
            states: self.states.deep_view(),
            created_at: self.created_at,
            updated_at: self.updated_at,
            error: self.error.deep_view(),
            errors: self.errors.deep_view(),
        }
    }
}

impl DeepView for Scene {
    type V = SceneData;

    open spec fn deep_view(&self) -> SceneData {
        self.view()
    }
}

impl Scene {
    /// The scene a JSON value describes.
    pub open spec fn spec_of_json(j: JsonData) -> Option<SceneData> {
        match j {
            JsonData::Obj(obj) => {
                if spec_req_text(obj, "uuid"@) is Some && spec_req_text(obj, "name"@) is Some
                    && spec_key_count(obj, "account"@) == 1 && Account::spec_of_json(
                    spec_first_val(obj, "account"@),
                ) is Some && spec_key_count(obj, "states"@) == 1 && (spec_first_val(obj, "states"@)
                    matches JsonData::Arr(items) && spec_states_of(items) is Some)
                    && spec_req_i64(obj, "created_at"@) is Some && spec_req_i64(obj, "updated_at"@)
                    is Some && spec_opt_text(obj, "error"@) is Some && spec_opt_errors(
                    obj,
                    "errors"@,
                ) is Some {
                    Some(
                        SceneData {
                            uuid: spec_req_text(obj, "uuid"@)->0,
                            name: spec_req_text(obj, "name"@)->0,
                            account: Account::spec_of_json(spec_first_val(obj, "account"@))->0,
                            states: spec_states_of(spec_first_val(obj, "states"@)->Arr_0)->0,
                            created_at: spec_req_i64(obj, "created_at"@)->0,
                            updated_at: spec_req_i64(obj, "updated_at"@)->0,
                            error: spec_opt_text(obj, "error"@)->0,
                            errors: spec_opt_errors(obj, "errors"@)->0,
                        },
                    )
                } else {
                    None
                }
            },
            _ => None,
        }
    }

    /// Reads a scene out of a parsed JSON value.
    #[verifier::rlimit(100)]
    pub fn of_json(j: &JsonValue) -> (r: Option<Scene>)
        ensures
            match r {
                Some(v) => Self::spec_of_json(j@) == Some(v@),
                None => Self::spec_of_json(j@) is None,
            },
    {
        match j {
            JsonValue::Obj(members) => {
                proof {
                    lemma_obj_view(*members);
                }
                let uuid = req_text(members, "uuid");
                let name = req_text(members, "name");
                let account = match find_field(members, "account") {
                    FieldSlot::At(idx) => Account::of_json(&members[idx].1),
                    _ => None,
                };
                let states = match find_field(members, "states") {
                    FieldSlot::At(idx) => match &members[idx].1 {
                        JsonValue::Arr(items) => {
                            proof {
                                lemma_arr_view(*items);
                            }
                            states_of(items)
                        },
                        _ => None,
                    },
                    _ => None,
                };
                let created_at = req_i64(members, "created_at");
                let updated_at = req_i64(members, "updated_at");
                let error = opt_text(members, "error");
                let errors = opt_errors(members, "errors");
                if uuid.is_some() && name.is_some() && account.is_some() && states.is_some()
                    && created_at.is_some() && updated_at.is_some() && error.is_some()
                    && errors.is_some() {
                    Some(
                        Scene {
                            uuid: uuid.unwrap(),
                            name: name.unwrap(),
                            account: account.unwrap(),
                            states: states.unwrap(),
                            created_at: created_at.unwrap(),
                            updated_at: updated_at.unwrap(),
                            error: error.unwrap(),
                            errors: errors.unwrap(),
                        },
                    )
                } else {
                    None
                }
            },
            _ => None,
        }
    }
}

/// The lights a listing call returns.
pub type Lights = Vec<Light>;

/// The scenes a listing call returns.
pub type Scenes = Vec<Scene>;

/// A sequence of lights read from an array of JSON values.
pub open spec fn spec_lights_of(items: Seq<JsonData>) -> Option<Seq<LightData>>
    decreases items.len(),
{
    if items.len() == 0 {
        Some(Seq::empty())
    } else {
        match (spec_lights_of(items.drop_last()), Light::spec_of_json(items.last())) {
            (Some(pre), Some(e)) => Some(pre.push(e)),
            _ => None,
        }
    }
}

/// An array of lights fails to read whenever one element does.
proof fn lemma_lights_of_fail(items: Seq<JsonData>, k: int)
    requires
        0 <= k < items.len(),
        Light::spec_of_json(items[k]) is None,
    ensures
        spec_lights_of(items) is None,
    decreases items.len(),
{
    if k < items.len() - 1 {
        assert(items.drop_last()[k] == items[k]);
        lemma_lights_of_fail(items.drop_last(), k);
    }
}

/// Reads an array of lights.
fn lights_of(items: &Vec<JsonValue>) -> (r: Option<Vec<Light>>)
    ensures
        match r {
            Some(v) => spec_lights_of(items.deep_view()) == Some(v.deep_view()),
            None => spec_lights_of(items.deep_view()) is None,
        },
{
    let ghost dv = items.deep_view();
    let mut out: Vec<Light> = Vec::new();
    let mut i: usize = 0;
    proof {
        assert(dv.subrange(0, 0) =~= Seq::<JsonData>::empty());
        assert(out.deep_view() =~= Seq::<LightData>::empty());
    }
    while i < items.len()
        invariant
            i <= items@.len(),
            dv == items.deep_view(),
            dv.len() == items@.len(),
            spec_lights_of(dv.subrange(0, i as int)) == Some(out.deep_view()),
        decreases items@.len() - i,
    {
        proof {
            assert(dv[i as int] == items@[i as int].deep_view());
            assert(dv.subrange(0, i + 1 as int).drop_last() =~= dv.subrange(0, i as int));
            assert(dv.subrange(0, i + 1 as int).last() == dv[i as int]);
        }
        match Light::of_json(&items[i]) {
            Some(e) => {
                let ghost pre = out.deep_view();
                out.push(e);
                proof {
                    assert(out.deep_view() =~= pre.push(out@.last().deep_view()));
                }
            },
            None => {
                proof {
                    lemma_lights_of_fail(dv, i as int);
                }
                return None;
            },
        }
        i += 1;
    }
    proof {
        assert(dv.subrange(0, items@.len() as int) =~= dv);
    }
    Some(out)
}

/// A sequence of scenes read from an array of JSON values.
pub open spec fn spec_scenes_of(items: Seq<JsonData>) -> Option<Seq<SceneData>>
    decreases items.len(),
{
    if items.len() == 0 {
        Some(Seq::empty())
    } else {
        match (spec_scenes_of(items.drop_last()), Scene::spec_of_json(items.last())) {
            (Some(pre), Some(e)) => Some(pre.push(e)),
            _ => None,
        }
    }
}

/// An array of scenes fails to read whenever one element does.
proof fn lemma_scenes_of_fail(items: Seq<JsonData>, k: int)
    requires
        0 <= k < items.len(),
        Scene::spec_of_json(items[k]) is None,
    ensures
        spec_scenes_of(items) is None,
    decreases items.len(),
{
    if k < items.len() - 1 {
        assert(items.drop_last()[k] == items[k]);
        lemma_scenes_of_fail(items.drop_last(), k);
    }
}

/// Reads an array of scenes.
fn scenes_of(items: &Vec<JsonValue>) -> (r: Option<Vec<Scene>>)
    ensures
        match r {
            Some(v) => spec_scenes_of(items.deep_view()) == Some(v.deep_view()),
            None => spec_scenes_of(items.deep_view()) is None,
        },
{
    let ghost dv = items.deep_view();
    let mut out: Vec<Scene> = Vec::new();
    let mut i: usize = 0;
    proof {
        assert(dv.subrange(0, 0) =~= Seq::<JsonData>::empty());
        assert(out.deep_view() =~= Seq::<SceneData>::empty());
    }
    while i < items.len()
        invariant
            i <= items@.len(),
            dv == items.deep_view(),
            dv.len() == items@.len(),
            spec_scenes_of(dv.subrange(0, i as int)) == Some(out.deep_view()),
        decreases items@.len() - i,
    {
        proof {
            assert(dv[i as int] == items@[i as int].deep_view());
            assert(dv.subrange(0, i + 1 as int).drop_last() =~= dv.subrange(0, i as int));
            assert(dv.subrange(0, i + 1 as int).last() == dv[i as int]);
        }
        match Scene::of_json(&items[i]) {
            Some(e) => {
                let ghost pre = out.deep_view();
                out.push(e);
                proof {
                    assert(out.deep_view() =~= pre.push(out@.last().deep_view()));
                }
            },
            None => {
                proof {
                    lemma_scenes_of_fail(dv, i as int);
                }
                return None;
            },
        }
        i += 1;
    }
    proof {
        assert(dv.subrange(0, items@.len() as int) =~= dv);
    }
    Some(out)
}

/// The lights a whole response body describes: a JSON array of lights.
pub open spec fn spec_lights_of_body(s: Seq<char>) -> Option<Seq<LightData>> {
    match spec_parse_json(s) {
        Some(JsonData::Arr(items)) => spec_lights_of(items),
        _ => None,
    }
}

/// Parses a response body into the list of lights it holds.
pub fn lights_of_body(body: &str) -> (r: Option<Lights>)
    ensures
        match r {
            Some(v) => spec_lights_of_body(body@) == Some(v.deep_view()),
            None => spec_lights_of_body(body@) is None,
        },
{
    match parse_json(body) {
        Some(JsonValue::Arr(items)) => {
            proof {
                lemma_arr_view(items);
            }
            lights_of(&items)
        },
        _ => None,
    }
}

/// The scenes a whole response body describes: a JSON array of scenes.
pub open spec fn spec_scenes_of_body(s: Seq<char>) -> Option<Seq<SceneData>> {
    match spec_parse_json(s) {
        Some(JsonData::Arr(items)) => spec_scenes_of(items),
        _ => None,
    }
}

/// Parses a response body into the list of scenes it holds.
pub fn scenes_of_body(body: &str) -> (r: Option<Scenes>)
    ensures
        match r {
            Some(v) => spec_scenes_of_body(body@) == Some(v.deep_view()),
            None => spec_scenes_of_body(body@) is None,
        },
{
    match parse_json(body) {
        Some(JsonValue::Arr(items)) => {
            proof {
                lemma_arr_view(items);
            }
            scenes_of(&items)
        },
        _ => None,
    }
}

} // verus!
