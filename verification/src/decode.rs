//! Decoding the server's JSON job listing into the typed model.
//!
//! serde_json parses the body into its document tree; everything after that
//! — which fields are read, which shapes are accepted, and the mapping of
//! colour and result strings onto the enums — is the library's own logic,
//! verified here. An unrecognized colour or result string fails the decode
//! with `DecodeError`; it is never coerced to a default.

use vstd::prelude::*;

use crate::error::JenkinsError;
use crate::status::{Build, BuildResult, Color, Job};

verus! {

/// The colour a colour string denotes, if any: the fourteen enumerated
/// strings and nothing else.
pub open spec fn spec_color_of(s: Seq<char>) -> Option<Color> {
    if s == "red"@ {
        Some(Color::Red)
    } else if s == "red_anime"@ {
        Some(Color::RedAnime)
    } else if s == "yellow"@ {
        Some(Color::Yellow)
    } else if s == "yellow_anime"@ {
        Some(Color::YellowAnime)
    } else if s == "blue"@ {
        Some(Color::Blue)
    } else if s == "blue_anime"@ {
        Some(Color::BlueAnime)
    } else if s == "grey"@ {
        Some(Color::Grey)
    } else if s == "grey_anime"@ {
        Some(Color::GreyAnime)
    } else if s == "disabled"@ {
        Some(Color::Disabled)
    } else if s == "disabled_anime"@ {
        Some(Color::DisabledAnime)
    } else if s == "aborted"@ {
        Some(Color::Aborted)
    } else if s == "aborted_anime"@ {
        Some(Color::AbortedAnime)
    } else if s == "notbuilt"@ {
        Some(Color::NotBuilt)
    } else if s == "notbuilt_anime"@ {
        Some(Color::NotBuiltAnime)
    } else {
        None
    }
}

/// The build result a result string denotes, if any: the five enumerated
/// strings and nothing else.
pub open spec fn spec_result_of(s: Seq<char>) -> Option<BuildResult> {
    if s == "SUCCESS"@ {
        Some(BuildResult::Success)
    } else if s == "UNSTABLE"@ {
        Some(BuildResult::Unstable)
    } else if s == "FAILURE"@ {
        Some(BuildResult::Failure)
    } else if s == "NOT_BUILT"@ {
        Some(BuildResult::NotBuilt)
    } else if s == "ABORTED"@ {
        Some(BuildResult::Aborted)
    } else {
        None
    }
}

/// Map a colour string onto `Color`: exactly the enumerated strings are
/// accepted, anything else is a `DecodeError`.
pub fn color_from_str(s: &str) -> (r: Result<Color, JenkinsError>)
    ensures
        r == match spec_color_of(s@) {
            Some(c) => Ok::<Color, JenkinsError>(c),
            None => Err::<Color, JenkinsError>(JenkinsError::DecodeError),
        },
{
    let o = s.to_owned();
    if o == "red".to_owned() {
        Ok(Color::Red)
    } else if o == "red_anime".to_owned() {
        Ok(Color::RedAnime)
    } else if o == "yellow".to_owned() {
        Ok(Color::Yellow)
    } else if o == "yellow_anime".to_owned() {
        Ok(Color::YellowAnime)
    } else if o == "blue".to_owned() {
        Ok(Color::Blue)
    } else if o == "blue_anime".to_owned() {
        Ok(Color::BlueAnime)
    } else if o == "grey".to_owned() {
        Ok(Color::Grey)
    } else if o == "grey_anime".to_owned() {
        Ok(Color::GreyAnime)
    } else if o == "disabled".to_owned() {
        Ok(Color::Disabled)
    } else if o == "disabled_anime".to_owned() {
        Ok(Color::DisabledAnime)
    } else if o == "aborted".to_owned() {
        Ok(Color::Aborted)
    } else if o == "aborted_anime".to_owned() {
        Ok(Color::AbortedAnime)
    } else if o == "notbuilt".to_owned() {
        Ok(Color::NotBuilt)
    } else if o == "notbuilt_anime".to_owned() {
        Ok(Color::NotBuiltAnime)
    } else {
        Err(JenkinsError::DecodeError)
    }
}

/// Map a result string onto `BuildResult`: exactly the enumerated strings
/// are accepted, anything else is a `DecodeError`.
pub fn result_from_str(s: &str) -> (r: Result<BuildResult, JenkinsError>)
    ensures
        r == match spec_result_of(s@) {
            Some(b) => Ok::<BuildResult, JenkinsError>(b),
            None => Err::<BuildResult, JenkinsError>(JenkinsError::DecodeError),
        },
{
    let o = s.to_owned();
    if o == "SUCCESS".to_owned() {
        Ok(BuildResult::Success)
    } else if o == "UNSTABLE".to_owned() {
        Ok(BuildResult::Unstable)
    } else if o == "FAILURE".to_owned() {
        Ok(BuildResult::Failure)
    } else if o == "NOT_BUILT".to_owned() {
        Ok(BuildResult::NotBuilt)
    } else if o == "ABORTED".to_owned() {
        Ok(BuildResult::Aborted)
    } else {
        Err(JenkinsError::DecodeError)
    }
}

/// What a build decodes to from its three extracted fields: the number must
/// fit the model's 32 bits and the result string, when present, must be one
/// of the enumerated ones.
pub open spec fn spec_build_of(
    number: u64,
    result_str: Option<Seq<char>>,
    timestamp: u64,
) -> Result<Build, JenkinsError> {
    if number > u32::MAX {
        Err(JenkinsError::DecodeError)
    } else {
        match result_str {
            None => Ok(Build { number: number as u32, result: None, timestamp }),
            Some(s) => match spec_result_of(s) {
                Some(b) => Ok(Build { number: number as u32, result: Some(b), timestamp }),
                None => Err(JenkinsError::DecodeError),
            },
        }
    }
}

/// Assemble a build from its extracted fields, as `spec_build_of` fixes it.
pub fn build_from_fields(number: u64, result_str: Option<&str>, timestamp: u64) -> (r: Result<
    Build,
    JenkinsError,
>)
    ensures
        r == spec_build_of(
            number,
            match result_str {
                Some(s) => Some(s@),
                None => None::<Seq<char>>,
            },
            timestamp,
        ),
{
    if number > u32::MAX as u64 {
        return Err(JenkinsError::DecodeError);
    }
    let result = match result_str {
        None => None,
        Some(s) => match result_from_str(s) {
            Ok(b) => Some(b),
            Err(e) => {
                return Err(e);
            },
        },
    };
    Ok(Build { number: number as u32, result, timestamp })
}

/// Assemble a job from its extracted fields: the colour string must be one
/// of the enumerated ones, anything else is a `DecodeError`.
pub fn job_from_fields(name: String, color_str: &str, last_build: Option<Build>) -> (r: Result<
    Job,
    JenkinsError,
>)
    ensures
        r == match spec_color_of(color_str@) {
            Some(c) => Ok::<Job, JenkinsError>(Job { name, color: c, last_build }),
            None => Err::<Job, JenkinsError>(JenkinsError::DecodeError),
        },
{
    match color_from_str(color_str) {
        Ok(color) => Ok(Job { name, color, last_build }),
        Err(e) => Err(e),
    }
}

/// The mathematical content of a JSON node: what the opaque document tree
/// holds, as plain values. Numbers split into those the parser holds as
/// unsigned 64-bit integers — the only ones the decode reads — and all
/// others (negative or floating-point); an object is the map of its
/// fields, duplicate keys already resolved the way the parser keeps them.
pub enum JsonModel {
    Null,
    Bool(bool),
    UInt(u64),
    OtherNumber,
    Text(Seq<char>),
    Array(Seq<JsonModel>),
    Object(Map<Seq<char>, JsonModel>),
}

/// A JSON document tree, as serde_json represents it. Opaque here: it is
/// only ever read through the trusted accessors beside it, whose contracts
/// all speak of its content `json_model`.
#[verifier::external_type_specification]
#[verifier::external_body]
pub struct ExJsonValue(serde_json::Value);

/// What a parsed document tree holds.
pub uninterp spec fn json_model(v: serde_json::Value) -> JsonModel;

/// What serde_json::from_str makes of a text: the content of the parsed
/// tree, absent exactly when the text is no well-formed JSON document.
pub uninterp spec fn spec_json_of(s: Seq<char>) -> Option<JsonModel>;

/// Relies on serde_json::from_str for `serde_json::Value`: `Some` exactly
/// when the body is one well-formed JSON document, namely the tree whose
/// content `spec_json_of` fixes.
#[verifier::external_body]
fn parse_json(s: &str) -> (r: Option<serde_json::Value>)
    ensures
        r is Some <==> spec_json_of(s@) is Some,
        r matches Some(v) ==> Some(json_model(v)) == spec_json_of(s@),
{
    serde_json::from_str::<serde_json::Value>(s).ok()
}

/// Relies on serde_json::Value::get with a string key: the value under that
/// key when the node is an object holding it, `None` otherwise.
#[verifier::external_body]
fn json_get<'a>(v: &'a serde_json::Value, key: &str) -> (r: Option<&'a serde_json::Value>)
    ensures
        r is Some <==> (json_model(*v) matches JsonModel::Object(fields)
            && fields.contains_key(key@)),
        r matches Some(f) ==> (json_model(*v) matches JsonModel::Object(fields)
            && fields.contains_key(key@) && json_model(*f) == fields[key@]),
{
    v.get(key)
}

/// Relies on serde_json::Value::as_str: the text when the node is a JSON
/// string, `None` otherwise.
#[verifier::external_body]
fn json_as_string(v: &serde_json::Value) -> (r: Option<String>)
    ensures
        r is Some <==> json_model(*v) is Text,
        r matches Some(s) ==> json_model(*v) == JsonModel::Text(s@),
{
    match v.as_str() {
        Some(s) => Some(s.to_owned()),
        None => None,
    }
}

/// Relies on serde_json::Value::as_u64: the value when the node is an
/// integer the parser holds as an unsigned 64-bit integer, `None`
/// otherwise.
#[verifier::external_body]
fn json_as_u64(v: &serde_json::Value) -> (r: Option<u64>)
    ensures
        r is Some <==> json_model(*v) is UInt,
        r matches Some(n) ==> json_model(*v) == JsonModel::UInt(n),
{
    v.as_u64()
}

/// Relies on serde_json::Value::as_array: the elements when the node is a
/// JSON array, `None` otherwise; element for element they hold what the
/// array's model holds.
#[verifier::external_body]
fn json_as_array<'a>(v: &'a serde_json::Value) -> (r: Option<&'a Vec<serde_json::Value>>)
    ensures
        r is Some <==> json_model(*v) is Array,
        r matches Some(a) ==> (json_model(*v) matches JsonModel::Array(elems)
            && elems.len() == a@.len()
            && (forall|i: int| 0 <= i < a@.len() ==> #[trigger] json_model(a@[i]) == elems[i])),
{
    v.as_array()
}

/// Relies on serde_json::Value::is_null: whether the node is JSON `null`.
#[verifier::external_body]
fn json_is_null(v: &serde_json::Value) -> (r: bool)
    ensures
        r == (json_model(*v) is Null),
{
    v.is_null()
}

/// The field a JSON node holds under a key: present only on an object that
/// has the key.
pub open spec fn spec_field(m: JsonModel, key: Seq<char>) -> Option<JsonModel> {
    match m {
        JsonModel::Object(fields) => if fields.contains_key(key) {
            Some(fields[key])
        } else {
            None
        },
        _ => None,
    }
}

/// What a build object decodes to: `number` and `timestamp` must be
/// unsigned integers, the number must fit the model's 32 bits, and
/// `result` must be absent, `null`, or one of the enumerated result
/// strings; everything else is a `DecodeError`.
pub open spec fn spec_decode_build(m: JsonModel) -> Result<Build, JenkinsError> {
    match (spec_field(m, "number"@), spec_field(m, "timestamp"@)) {
        (Some(JsonModel::UInt(number)), Some(JsonModel::UInt(timestamp))) => if number
            > u32::MAX {
            Err(JenkinsError::DecodeError)
        } else {
            match spec_field(m, "result"@) {
                None => Ok(Build { number: number as u32, result: None, timestamp }),
                Some(JsonModel::Null) => Ok(
                    Build { number: number as u32, result: None, timestamp },
                ),
                Some(JsonModel::Text(s)) => match spec_result_of(s) {
                    Some(b) => Ok(Build { number: number as u32, result: Some(b), timestamp }),
                    None => Err(JenkinsError::DecodeError),
                },
                Some(_) => Err(JenkinsError::DecodeError),
            }
        },
        _ => Err(JenkinsError::DecodeError),
    }
}

/// Decode one build object, as `spec_decode_build` fixes it on the node's
/// content. Whatever shape the node has, a failure is always a
/// `DecodeError`.
pub fn decode_build(v: &serde_json::Value) -> (r: Result<Build, JenkinsError>)
    ensures
        r == spec_decode_build(json_model(*v)),
        r matches Err(e) ==> e == JenkinsError::DecodeError,
{
    let number = match json_get(v, "number") {
        Some(nv) => match json_as_u64(nv) {
            Some(n) => n,
            None => {
                return Err(JenkinsError::DecodeError);
            },
        },
        None => {
            return Err(JenkinsError::DecodeError);
        },
    };
    let timestamp = match json_get(v, "timestamp") {
        Some(tv) => match json_as_u64(tv) {
            Some(t) => t,
            None => {
                return Err(JenkinsError::DecodeError);
            },
        },
        None => {
            return Err(JenkinsError::DecodeError);
        },
    };
    let result_str = match json_get(v, "result") {
        None => None,
        Some(rv) => {
            if json_is_null(rv) {
                None
            } else {
                match json_as_string(rv) {
                    Some(s) => Some(s),
                    None => {
                        return Err(JenkinsError::DecodeError);
                    },
                }
            }
        },
    };
    match &result_str {
        Some(s) => build_from_fields(number, Some(s.as_str()), timestamp),
        None => build_from_fields(number, None, timestamp),
    }
}

/// What a job object's `lastBuild` field decodes to: absent or `null` is a
/// job that never built; anything else must decode as a build object.
pub open spec fn spec_job_build(m: JsonModel) -> Result<Option<Build>, JenkinsError> {
    match spec_field(m, "lastBuild"@) {
        None => Ok(None),
        Some(JsonModel::Null) => Ok(None),
        Some(b) => match spec_decode_build(b) {
            Ok(build) => Ok(Some(build)),
            Err(e) => Err(e),
        },
    }
}

/// Whether a job object decodes at all: `name` and `color` must be strings,
/// the colour one of the enumerated colour strings, and the `lastBuild`
/// field as `spec_job_build` fixes it.
pub open spec fn spec_job_ok(m: JsonModel) -> bool {
    &&& spec_field(m, "name"@) matches Some(JsonModel::Text(_))
    &&& spec_field(m, "color"@) matches Some(JsonModel::Text(c)) && spec_color_of(c) is Some
    &&& spec_job_build(m) is Ok
}

/// What a decoded job holds of its object: the name text, the colour the
/// colour string denotes, and the last build as `spec_job_build` fixes it.
pub open spec fn spec_job_matches(m: JsonModel, job: Job) -> bool {
    &&& spec_field(m, "name"@) matches Some(JsonModel::Text(s)) && job.name@ == s
    &&& spec_field(m, "color"@) matches Some(JsonModel::Text(c)) && spec_color_of(c) == Some(
        job.color,
    )
    &&& spec_job_build(m) == Ok::<Option<Build>, JenkinsError>(job.last_build)
}

/// Decode one job object: it succeeds exactly when `spec_job_ok` holds of
/// the node's content, and then the job holds what `spec_job_matches`
/// fixes. Whatever shape the node has, a failure is always a `DecodeError`.
pub fn decode_job(v: &serde_json::Value) -> (r: Result<Job, JenkinsError>)
    ensures
        r is Ok <==> spec_job_ok(json_model(*v)),
        r matches Ok(job) ==> spec_job_matches(json_model(*v), job),
        r matches Err(e) ==> e == JenkinsError::DecodeError,
{
    let name = match json_get(v, "name") {
        Some(nv) => match json_as_string(nv) {
            Some(s) => s,
            None => {
                return Err(JenkinsError::DecodeError);
            },
        },
        None => {
            return Err(JenkinsError::DecodeError);
        },
    };
    let color_str = match json_get(v, "color") {
        Some(cv) => match json_as_string(cv) {
            Some(s) => s,
            None => {
                return Err(JenkinsError::DecodeError);
            },
        },
        None => {
            return Err(JenkinsError::DecodeError);
        },
    };
    let last_build = match json_get(v, "lastBuild") {
        None => None,
        Some(bv) => {
            if json_is_null(bv) {
                None
            } else {
                match decode_build(bv) {
                    Ok(b) => Some(b),
                    Err(e) => {
                        return Err(e);
                    },
                }
            }
        },
    };
    job_from_fields(name, color_str.as_str(), last_build)
}

/// The job array a document's content holds: present only on an object
/// whose `jobs` field is an array.
pub open spec fn spec_jobs_field(m: JsonModel) -> Option<Seq<JsonModel>> {
    match spec_field(m, "jobs"@) {
        Some(JsonModel::Array(elems)) => Some(elems),
        _ => None,
    }
}

/// Whether a body decodes at all: it must be a JSON document, an object
/// whose `jobs` field is an array, and every element a decodable job
/// object — a job that does not decode fails the whole body rather than
/// being dropped.
pub open spec fn spec_job_list_ok(doc: Option<JsonModel>) -> bool {
    &&& doc matches Some(m)
    &&& spec_jobs_field(m) matches Some(elems)
    &&& forall|i: int| 0 <= i < elems.len() ==> spec_job_ok(#[trigger] elems[i])
}

/// What a decoded job list holds of its body: the body's `jobs` array,
/// complete and in body order, each entry decoded as `spec_job_matches`
/// fixes it.
pub open spec fn spec_job_list_matches(doc: Option<JsonModel>, jobs: Seq<Job>) -> bool {
    &&& doc matches Some(m)
    &&& spec_jobs_field(m) matches Some(elems) && elems.len() == jobs.len() && (forall|i: int|
        0 <= i < elems.len() ==> spec_job_matches(#[trigger] elems[i], #[trigger] jobs[i]))
}

/// Decode the whole response body: it succeeds exactly when
/// `spec_job_list_ok` holds of what the body parses to, and then the list
/// is the body's `jobs` array, complete and in body order. Whatever the
/// body holds, a failure is always a `DecodeError`.
pub fn decode_job_list(body: &str) -> (r: Result<Vec<Job>, JenkinsError>)
    ensures
        r is Ok <==> spec_job_list_ok(spec_json_of(body@)),
        r matches Ok(jobs) ==> spec_job_list_matches(spec_json_of(body@), jobs@),
        r matches Err(e) ==> e == JenkinsError::DecodeError,
{
    let root = match parse_json(body) {
        Some(v) => v,
        None => {
            return Err(JenkinsError::DecodeError);
        },
    };
    let arr = match json_get(&root, "jobs") {
        Some(jv) => match json_as_array(jv) {
            Some(a) => a,
            None => {
                return Err(JenkinsError::DecodeError);
            },
        },
        None => {
            return Err(JenkinsError::DecodeError);
        },
    };
    let ghost elems = spec_jobs_field(json_model(root)).unwrap();
    let mut jobs: Vec<Job> = Vec::new();
    let mut i: usize = 0;
    while i < arr.len()
        invariant
            i <= arr.len(),
            Some(json_model(root)) == spec_json_of(body@),
            spec_jobs_field(json_model(root)) == Some(elems),
            elems.len() == arr@.len(),
            forall|k: int| 0 <= k < arr@.len() ==> #[trigger] json_model(arr@[k]) == elems[k],
            jobs@.len() == i,
            forall|k: int| 0 <= k < i ==> spec_job_ok(#[trigger] elems[k]),
            forall|k: int| 0 <= k < i ==> spec_job_matches(elems[k], #[trigger] jobs@[k]),
        decreases arr.len() - i,
    {
        match decode_job(&arr[i]) {
            Ok(job) => jobs.push(job),
            Err(e) => {
                proof {
                    assert(!spec_job_ok(elems[i as int]));
                    assert(!spec_job_list_ok(spec_json_of(body@))) by {
                        if spec_job_list_ok(spec_json_of(body@)) {
                            let m = spec_json_of(body@).unwrap();
                            let es = spec_jobs_field(m).unwrap();
                            assert(es == elems);
                            assert(spec_job_ok(es[i as int]));
                        }
                    }
                }
                return Err(e);
            },
        }
        i = i + 1;
    }
    Ok(jobs)
}

} // verus!
