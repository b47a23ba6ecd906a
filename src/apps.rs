use vstd::prelude::*;

verus! {

#[verifier::external_type_specification]
#[verifier::external_body]
pub struct ExJsonValue(serde_json::Value);

#[verifier::external_type_specification]
#[verifier::external_body]
pub struct ExJsonError(serde_json::Error);

/// An installed packaged application: its display name and its application
/// user model id.
pub struct UwpAppInfo {
    pub name: String,
    pub app_id: String,
}

impl View for UwpAppInfo {
    type V = (Seq<char>, Seq<char>);

    open spec fn view(&self) -> (Seq<char>, Seq<char>) {
        (self.name@, self.app_id@)
    }
}

impl UwpAppInfo {
    /// A copy with the same name and id.
    pub fn duplicate(&self) -> (r: UwpAppInfo)
        ensures
            r@ == self@,
    {
        UwpAppInfo { name: self.name.clone(), app_id: self.app_id.clone() }
    }
}

/// The views of a list of applications.
pub open spec fn app_views(apps: Seq<UwpAppInfo>) -> Seq<(Seq<char>, Seq<char>)> {
    apps.map_values(|a: UwpAppInfo| a@)
}

/// Copies a list of applications.
pub fn copy_apps(apps: &Vec<UwpAppInfo>) -> (r: Vec<UwpAppInfo>)
    ensures
        app_views(r@) == app_views(apps@),
{
    let mut out: Vec<UwpAppInfo> = Vec::new();
    let mut i: usize = 0;
    while i < apps.len()
        invariant
            i <= apps@.len(),
            app_views(out@) == app_views(apps@.subrange(0, i as int)),
        decreases apps@.len() - i,
    {
        let ghost before = out@;
        out.push(apps[i].duplicate());
        proof {
            assert(apps@.subrange(0, i + 1) =~= apps@.subrange(0, i as int).push(apps@[i as int]));
            assert(out@ == before.push(out@.last()));
            assert(app_views(out@) =~= app_views(before).push(apps@[i as int]@));
            assert(app_views(apps@.subrange(0, i + 1)) =~= app_views(apps@.subrange(0, i as int)).push(
                apps@[i as int]@,
            ));
        }
        i = i + 1;
    }
    assert(apps@.subrange(0, apps@.len() as int) =~= apps@);
    out
}

/// Whether `c` has the Unicode `White_Space` property.
pub open spec fn is_white_space(c: char) -> bool {
    ||| '\u{9}' <= c <= '\u{d}'
    ||| c == ' '
    ||| c == '\u{85}'
    ||| c == '\u{a0}'
    ||| c == '\u{1680}'
    ||| '\u{2000}' <= c <= '\u{200a}'
    ||| c == '\u{2028}'
    ||| c == '\u{2029}'
    ||| c == '\u{202f}'
    ||| c == '\u{205f}'
    ||| c == '\u{3000}'
}

pub open spec fn trim_start(s: Seq<char>) -> Seq<char>
    decreases s.len(),
{
    if s.len() > 0 && is_white_space(s[0]) {
        trim_start(s.drop_first())
    } else {
        s
    }
}

pub open spec fn trim_end(s: Seq<char>) -> Seq<char>
    decreases s.len(),
{
    if s.len() > 0 && is_white_space(s.last()) {
        trim_end(s.drop_last())
    } else {
        s
    }
}

/// The text with leading and trailing whitespace removed.
pub open spec fn trimmed(s: Seq<char>) -> Seq<char> {
    trim_end(trim_start(s))
}

/// A JSON value: an array, an object as its members in order, a string, or
/// anything else (numbers, booleans, null).
pub enum Json {
    Array(Seq<Json>),
    Object(Seq<(Seq<char>, Json)>),
    Str(Seq<char>),
    Other,
}

/// The JSON value that serde_json reads from the text, or `None` where it
/// rejects the text.
pub uninterp spec fn json_of(s: Seq<char>) -> Option<Json>;

/// What a parsed `serde_json::Value` holds.
pub uninterp spec fn json_model(v: serde_json::Value) -> Json;

pub open spec fn json_models(vs: Seq<serde_json::Value>) -> Seq<Json> {
    vs.map_values(|v: serde_json::Value| json_model(v))
}

/// The value of the first member under `key`.
pub open spec fn member_of(members: Seq<(Seq<char>, Json)>, key: Seq<char>) -> Option<Json>
    decreases members.len(),
{
    if members.len() == 0 {
        None
    } else if members[0].0 == key {
        Some(members[0].1)
    } else {
        member_of(members.drop_first(), key)
    }
}

/// The member of `j` under `key`, where `j` is an object that has one.
pub open spec fn get_spec(j: Json, key: Seq<char>) -> Option<Json> {
    match j {
        Json::Object(members) => member_of(members, key),
        _ => None,
    }
}

/// Relies on `str::trim`, which removes leading and trailing `White_Space`
/// characters.
#[verifier::external_body]
fn trim(s: &str) -> (r: &str)
    ensures
        r@ == trimmed(s@),
{
    s.trim()
}

/// Relies on `serde_json::from_str` into a `serde_json::Value`: the value
/// depends on the text alone.
#[verifier::external_body]
fn parse_json(text: &str) -> (r: Result<serde_json::Value, serde_json::Error>)
    ensures
        r is Ok <==> json_of(text@) is Some,
        r matches Ok(v) ==> json_of(text@) == Some(json_model(v)),
{
    serde_json::from_str(text)
}

/// Relies on matching `serde_json::Value::Array`: hands out the elements of an
/// array, and any other value unchanged.
#[verifier::external_body]
fn into_array(v: serde_json::Value) -> (r: Result<Vec<serde_json::Value>, serde_json::Value>)
    ensures
        json_model(v) is Array <==> r is Ok,
        r matches Ok(items) ==> json_model(v) == Json::Array(json_models(items@)),
        r matches Err(w) ==> json_model(w) == json_model(v),
{
    match v {
        serde_json::Value::Array(items) => Ok(items),
        other => Err(other),
    }
}

/// Relies on `serde_json::Value::get` with a string key: the member of an
/// object under that key, and `None` for anything but an object.
#[verifier::external_body]
fn member<'a>(v: &'a serde_json::Value, key: &str) -> (r: Option<&'a serde_json::Value>)
    ensures
        r is Some <==> get_spec(json_model(*v), key@) is Some,
        r matches Some(m) ==> get_spec(json_model(*v), key@) == Some(json_model(*m)),
{
    v.get(key)
}

/// Relies on `serde_json::Value::is_object`.
#[verifier::external_body]
fn is_object(v: &serde_json::Value) -> (r: bool)
    ensures
        r == json_model(*v) is Object,
{
    v.is_object()
}

/// Relies on `serde_json::Value::as_str`: the text of a string value.
#[verifier::external_body]
fn as_text(v: &serde_json::Value) -> (r: Option<&str>)
    ensures
        match json_model(*v) {
            Json::Str(t) => r matches Some(s) && s@ == t,
            _ => r is None,
        },
{
    v.as_str()
}

/// The entry that a record yields from its name and id fields, if any: both
/// must be present and non-empty once trimmed.
pub open spec fn entry_spec(name: Option<Seq<char>>, app_id: Option<Seq<char>>) -> Option<(Seq<char>, Seq<char>)> {
    match (name, app_id) {
        (Some(n), Some(a)) => if trimmed(n).len() > 0 && trimmed(a).len() > 0 {
            Some((trimmed(n), trimmed(a)))
        } else {
            None
        },
        _ => None,
    }
}

pub open spec fn opt_view(o: Option<String>) -> Option<Seq<char>> {
    match o {
        Some(s) => Some(s@),
        None => None,
    }
}

pub open spec fn opt_str_view(o: Option<&str>) -> Option<Seq<char>> {
    match o {
        Some(s) => Some(s@),
        None => None,
    }
}

pub type FieldsView = (Option<Seq<char>>, Option<Seq<char>>);

pub open spec fn fields_views(fields: Seq<(Option<String>, Option<String>)>) -> Seq<FieldsView> {
    fields.map_values(|f: (Option<String>, Option<String>)| (opt_view(f.0), opt_view(f.1)))
}

/// The entries that a list of records yields, in order, records without a
/// usable name or id left out.
pub open spec fn entries_spec(fields: Seq<FieldsView>) -> Seq<(Seq<char>, Seq<char>)>
    decreases fields.len(),
{
    if fields.len() == 0 {
        seq![]
    } else {
        let before = entries_spec(fields.drop_last());
        match entry_spec(fields.last().0, fields.last().1) {
            Some(e) => before.push(e),
            None => before,
        }
    }
}

/// Builds the entry of one record from its name and id fields.
pub fn entry_from_fields(name: Option<&str>, app_id: Option<&str>) -> (r: Option<UwpAppInfo>)
    ensures
        match r {
            Some(a) => entry_spec(opt_str_view(name), opt_str_view(app_id)) == Some(a@),
            None => entry_spec(opt_str_view(name), opt_str_view(app_id)) is None,
        },
{
    match (name, app_id) {
        (Some(n), Some(a)) => {
            let n = trim(n);
            let a = trim(a);
            if n.is_empty() || a.is_empty() {
                None
            } else {
                Some(UwpAppInfo { name: n.to_owned(), app_id: a.to_owned() })
            }
        },
        _ => None,
    }
}

fn as_opt_str(o: &Option<String>) -> (r: Option<&str>)
    ensures
        opt_str_view(r) == opt_view(*o),
{
    match o {
        Some(s) => Some(s.as_str()),
        None => None,
    }
}

/// Builds the entries of a list of records, given as name and id fields.
pub fn entries_from_fields(fields: &Vec<(Option<String>, Option<String>)>) -> (r: Vec<UwpAppInfo>)
    ensures
        app_views(r@) == entries_spec(fields_views(fields@)),
{
    let mut out: Vec<UwpAppInfo> = Vec::new();
    let mut i: usize = 0;
    while i < fields.len()
        invariant
            i <= fields@.len(),
            app_views(out@) == entries_spec(fields_views(fields@.subrange(0, i as int))),
        decreases fields@.len() - i,
    {
        let name = as_opt_str(&fields[i].0);
        let app_id = as_opt_str(&fields[i].1);
        let entry = entry_from_fields(name, app_id);
        proof {
            let pre = fields_views(fields@.subrange(0, i + 1));
            assert(pre.drop_last() =~= fields_views(fields@.subrange(0, i as int)));
            assert(pre.last() == (opt_view(fields@[i as int].0), opt_view(fields@[i as int].1)));
        }
        match entry {
            Some(a) => {
                out.push(a);
                assert(app_views(out@) =~= entries_spec(fields_views(fields@.subrange(0, i + 1))));
            },
            None => {},
        }
        i = i + 1;
    }
    assert(fields@.subrange(0, fields@.len() as int) =~= fields@);
    out
}

pub open spec fn text_of(j: Option<Json>) -> Option<Seq<char>> {
    match j {
        Some(Json::Str(t)) => Some(t),
        _ => None,
    }
}

/// The name and id fields of a record: the `Name` member, and the `AppID`
/// member or, where there is none, the `AppId` member; each only where it is
/// a string. A record that is not an object has neither.
pub open spec fn record_fields_spec(record: Json) -> FieldsView {
    let id = if get_spec(record, "AppID"@) is Some {
        get_spec(record, "AppID"@)
    } else {
        get_spec(record, "AppId"@)
    };
    (text_of(get_spec(record, "Name"@)), text_of(id))
}

/// The records of a document: the elements of an array, a lone object, or
/// none for any other value.
pub open spec fn records_of(doc: Json) -> Seq<Json> {
    match doc {
        Json::Array(items) => items,
        Json::Object(_) => seq![doc],
        _ => seq![],
    }
}

/// The entries that a document yields.
pub open spec fn document_entries(doc: Json) -> Seq<(Seq<char>, Seq<char>)> {
    entries_spec(records_of(doc).map_values(|r: Json| record_fields_spec(r)))
}

pub open spec fn opt_model(v: Option<&serde_json::Value>) -> Option<Json> {
    match v {
        Some(m) => Some(json_model(*m)),
        None => None,
    }
}

fn owned_text(v: Option<&serde_json::Value>) -> (r: Option<String>)
    ensures
        opt_view(r) == text_of(opt_model(v)),
{
    match v {
        Some(m) => match as_text(m) {
            Some(s) => Some(s.to_owned()),
            None => None,
        },
        None => None,
    }
}

/// The name and id fields of a record.
fn record_fields(item: &serde_json::Value) -> (r: (Option<String>, Option<String>))
    ensures
        (opt_view(r.0), opt_view(r.1)) == record_fields_spec(json_model(*item)),
{
    let name = owned_text(member(item, "Name"));
    let id_member = match member(item, "AppID") {
        Some(m) => Some(m),
        None => member(item, "AppId"),
    };
    let app_id = owned_text(id_member);
    (name, app_id)
}

/// The records of a document.
fn top_level_records(v: serde_json::Value) -> (r: Vec<serde_json::Value>)
    ensures
        json_models(r@) == records_of(json_model(v)),
{
    match into_array(v) {
        Ok(items) => items,
        Err(other) => {
            if is_object(&other) {
                let r = vec![other];
                assert(json_models(r@) =~= seq![json_model(other)]);
                r
            } else {
                let r: Vec<serde_json::Value> = Vec::new();
                assert(json_models(r@) =~= Seq::<Json>::empty());
                r
            }
        },
    }
}

/// Whether enumeration output, once trimmed, holds no document at all.
pub open spec fn is_blank(text: Seq<char>) -> bool {
    trimmed(text).len() == 0 || trimmed(text) == "null"@
}

/// Whether the trimmed output is blank.
pub fn output_is_blank(output: &str) -> (r: bool)
    ensures
        r == is_blank(output@),
{
    let t = trim(output);
    if t.is_empty() {
        return true;
    }
    let t = t.to_owned();
    let null = String::from_str("null");
    t == null
}

/// A lone object is read as a single record, and a document that is neither
/// an array nor an object yields no entries.
pub proof fn document_shapes(doc: Json)
    ensures
        doc is Object ==> records_of(doc) == seq![doc],
        !(doc is Array) && !(doc is Object) ==> document_entries(doc) == Seq::<(Seq<char>, Seq<char>)>::empty(),
{
    if !(doc is Array) && !(doc is Object) {
        assert(records_of(doc).map_values(|r: Json| record_fields_spec(r)) =~= Seq::<FieldsView>::empty());
    }
}

/// The entries of enumeration output that is not blank: `None` where the
/// trimmed text is not JSON.
pub open spec fn parsed_entries(output: Seq<char>) -> Option<Seq<(Seq<char>, Seq<char>)>> {
    match json_of(trimmed(output)) {
        Some(doc) => Some(document_entries(doc)),
        None => None,
    }
}

/// Parses the enumeration output: a JSON array of records or a single record
/// object. Any other JSON value yields no entries; text that is not JSON is
/// an error carrying the parser's message.
pub fn parse_app_list(output: &str) -> (r: Result<Vec<UwpAppInfo>, String>)
    ensures
        is_blank(output@) ==> (r matches Ok(v) && v@.len() == 0),
        r is Err <==> !is_blank(output@) && parsed_entries(output@) is None,
        !is_blank(output@) && r is Ok ==> parsed_entries(output@) == Some(app_views(r->Ok_0@)),
{
    if output_is_blank(output) {
        return Ok(Vec::new());
    }
    let text = trim(output);
    let value = match parse_json(text) {
        Ok(v) => v,
        Err(e) => return Err(e.to_string()),
    };
    let ghost doc = json_model(value);
    let records = top_level_records(value);
    let mut fields: Vec<(Option<String>, Option<String>)> = Vec::new();
    let mut i: usize = 0;
    while i < records.len()
        invariant
            i <= records@.len(),
            json_models(records@) == records_of(doc),
            fields_views(fields@) == records_of(doc).subrange(0, i as int).map_values(
                |r: Json| record_fields_spec(r),
            ),
        decreases records@.len() - i,
    {
        let f = record_fields(&records[i]);
        let ghost before = fields@;
        proof {
            assert(json_models(records@).len() == records@.len());
            assert(fields_views(before).len() == before.len());
            assert(before.len() == i);
        }
        fields.push(f);
        proof {
            assert(json_models(records@)[i as int] == json_model(records@[i as int]));
            assert(records_of(doc)[i as int] == json_model(records@[i as int]));
            assert(fields@ == before.push(f));
            assert(fields_views(fields@)[i as int] == (opt_view(f.0), opt_view(f.1)));
            assert(fields_views(fields@).drop_last() =~= fields_views(before));
            assert(record_fields_spec(records_of(doc)[i as int]) == (opt_view(f.0), opt_view(f.1)));
            assert forall|k: int| 0 <= k < i implies fields_views(fields@)[k] == record_fields_spec(
                records_of(doc)[k],
            ) by {
                assert(fields_views(fields@)[k] == fields_views(before)[k]);
                assert(records_of(doc).subrange(0, i as int)[k] == records_of(doc)[k]);
            }
            assert(fields_views(fields@) =~= records_of(doc).subrange(0, i + 1).map_values(
                |r: Json| record_fields_spec(r),
            ));
        }
        i = i + 1;
    }
    assert(records_of(doc).subrange(0, records@.len() as int) =~= records_of(doc));
    let entries = entries_from_fields(&fields);
    Ok(entries)
}

/// The shell target that launches an application by its id.
pub open spec fn launch_target_spec(app_id: Seq<char>) -> Result<Seq<char>, Seq<char>> {
    if trimmed(app_id).len() == 0 {
        Err("empty app id"@)
    } else {
        Ok("shell:AppsFolder\\"@ + trimmed(app_id))
    }
}

/// The shell target that launches the application with the given id, or an
/// error where the id is blank.
pub fn launch_target(app_id: &str) -> (r: Result<String, String>)
    ensures
        match r {
            Ok(t) => launch_target_spec(app_id@) == Ok::<Seq<char>, Seq<char>>(t@),
            Err(m) => launch_target_spec(app_id@) == Err::<Seq<char>, Seq<char>>(m@),
        },
{
    let id = trim(app_id);
    if id.is_empty() {
        return Err(String::from_str("empty app id"));
    }
    let mut target = String::from_str("shell:AppsFolder\\");
    target.append(id);
    Ok(target)
}

} // verus!
