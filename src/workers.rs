//! The client side of the worker runtime: the requests that create, step
//! and delete a dialog's worker, and the checks on what comes back.
use vstd::prelude::*;
use vstd::string::*;
use crate::domain::opt_view;

verus! {

/// Why a call to the worker runtime failed.
#[derive(Clone, Debug, PartialEq, Eq)]
pub enum WorkerError {
    /// The request did not complete (network failure or time-out).
    Request,
    /// Creation answered with a status other than success.
    CreateStatus(u16),
    /// The creation response does not name the created worker.
    CreateDecode,
    /// The runtime created a worker under another name than the one asked for.
    CreateMismatch,
    /// The credential response lacks its value.
    Credential,
    /// A step invocation answered with a status other than success.
    InvokeStatus(u16),
    /// The step's response could not be decoded.
    InvokeDecode,
    /// The step's response holds no result.
    NoResult,
}

/// Relies on uuid's `Uuid::new_v4` for a random id and on its `Display`,
/// which writes the 36-character hyphenated form.
#[verifier::external_body]
pub(crate) fn new_worker_id() -> (r: String)
    ensures
        r@.len() == 36,
{
    uuid::Uuid::new_v4().to_string()
}

/// The JSON string literal that writes `s` (quotes and escapes included).
pub uninterp spec fn json_quoted(s: Seq<char>) -> Seq<char>;

/// The string found at JSON pointer `pointer` in the JSON document `body`;
/// `None` if `body` is not JSON or holds no string there.
pub uninterp spec fn json_text_at(body: Seq<char>, pointer: Seq<char>) -> Option<Seq<char>>;

/// Relies on `serde_json::to_string` on a `str`: the JSON string literal
/// that writes it. It writes into a `Vec`, which cannot fail, so the error
/// arm is never taken.
#[verifier::external_body]
fn json_string(s: &str) -> (r: String)
    ensures
        r@ == json_quoted(s@),
{
    match serde_json::to_string(s) {
        Ok(q) => q,
        Err(_) => String::new(),
    }
}

/// Relies on `serde_json::from_str` into a `serde_json::Value`, then on
/// `Value::pointer` and `Value::as_str`: the string at a JSON pointer of a
/// JSON document, if the document parses and holds a string there.
#[verifier::external_body]
fn json_text(body: &str, pointer: &str) -> (r: Option<String>)
    ensures
        opt_view(r) == json_text_at(body@, pointer@),
{
    match serde_json::from_str::<serde_json::Value>(body) {
        Ok(v) => v.pointer(pointer).and_then(|x| x.as_str()).map(|x| x.to_string()),
        Err(_) => None,
    }
}

pub open spec fn api_root() -> Seq<char> {
    "https://release.api.golem.cloud/v1"@
}

/// The name under which the runtime exposes a dialog's step function.
pub open spec fn step_function() -> Seq<char> {
    "golem%3Atemplate%2Fapi%2Fstep"@
}

pub fn step_function_name() -> (r: &'static str)
    ensures
        r@ == step_function(),
{
    "golem%3Atemplate%2Fapi%2Fstep"
}

pub open spec fn workers_url_spec(template: Seq<char>) -> Seq<char> {
    api_root() + "/templates/"@ + template + "/workers"@
}

pub open spec fn worker_url_spec(template: Seq<char>, worker_id: Seq<char>) -> Seq<char> {
    workers_url_spec(template) + "/"@ + worker_id
}

pub open spec fn invocation_key_url_spec(template: Seq<char>, worker_id: Seq<char>) -> Seq<char> {
    worker_url_spec(template, worker_id) + "/key"@
}

pub open spec fn invoke_url_spec(
    template: Seq<char>,
    worker_id: Seq<char>,
    key: Seq<char>,
    function: Seq<char>,
) -> Seq<char> {
    worker_url_spec(template, worker_id) + "/invoke-and-await?invocation-key="@ + key
        + "&function="@ + function
}

/// Where workers of a template are created.
pub fn workers_url(template: &str) -> (r: String)
    ensures
        r@ == workers_url_spec(template@),
{
    let mut url = String::from_str("https://release.api.golem.cloud/v1");
    url.append("/templates/");
    url.append(template);
    url.append("/workers");
    url
}

/// The resource of one worker; deleting it deletes the worker.
pub fn worker_url(template: &str, worker_id: &str) -> (r: String)
    ensures
        r@ == worker_url_spec(template@, worker_id@),
{
    let mut url = workers_url(template);
    url.append("/");
    url.append(worker_id);
    url
}

/// Where a worker's invocation credential is obtained.
pub fn invocation_key_url(template: &str, worker_id: &str) -> (r: String)
    ensures
        r@ == invocation_key_url_spec(template@, worker_id@),
{
    let mut url = worker_url(template, worker_id);
    url.append("/key");
    url
}

/// Where a worker's function is invoked and awaited.
pub fn invoke_url(template: &str, worker_id: &str, key: &str, function: &str) -> (r: String)
    ensures
        r@ == invoke_url_spec(template@, worker_id@, key@, function@),
{
    let mut url = worker_url(template, worker_id);
    url.append("/invoke-and-await?invocation-key=");
    url.append(key);
    url.append("&function=");
    url.append(function);
    url
}

pub open spec fn env_entry(e: (String, String)) -> Seq<char> {
    "["@ + json_quoted(e.0@) + ","@ + json_quoted(e.1@) + "]"@
}

/// The environment as a JSON array of `[name, value]` pairs, without the
/// enclosing brackets.
pub open spec fn env_entries(env: Seq<(String, String)>) -> Seq<char>
    decreases env.len(),
{
    if env.len() == 0 {
        Seq::empty()
    } else if env.len() == 1 {
        env_entry(env[0])
    } else {
        env_entries(env.drop_last()) + ","@ + env_entry(env.last())
    }
}

pub open spec fn create_worker_body_spec(worker_id: Seq<char>, env: Seq<(String, String)>) -> Seq<
    char,
> {
    "{\"name\":"@ + json_quoted(worker_id) + ",\"env\":["@ + env_entries(env) + "],\"args\":[]}"@
}

/// The JSON body that asks for a worker named `worker_id` with the given
/// environment and no arguments.
pub fn create_worker_body(worker_id: &str, env: &Vec<(String, String)>) -> (r: String)
    ensures
        r@ == create_worker_body_spec(worker_id@, env@),
{
    let mut body = String::from_str("{\"name\":");
    let q = json_string(worker_id);
    body.append(q.as_str());
    body.append(",\"env\":[");
    let ghost head = body@;
    let mut i: usize = 0;
    while i < env.len()
        invariant
            i <= env.len(),
            body@ == head + env_entries(env@.subrange(0, i as int)),
        decreases env.len() - i,
    {
        if i > 0 {
            body.append(",");
        }
        body.append("[");
        let k = json_string(env[i].0.as_str());
        body.append(k.as_str());
        body.append(",");
        let v = json_string(env[i].1.as_str());
        body.append(v.as_str());
        body.append("]");
        proof {
            let s = env@.subrange(0, i + 1);
            assert(s.drop_last() =~= env@.subrange(0, i as int));
            assert(s.last() == env@[i as int]);
            if i == 0 {
                assert(s[0] == env@[0]);
                assert(env_entries(env@.subrange(0, 0)) =~= Seq::<char>::empty());
            }
            assert(body@ =~= head + env_entries(s));
        }
        i = i + 1;
    }
    assert(env@.subrange(0, i as int) =~= env@);
    body.append("],\"args\":[]}");
    body
}

pub open spec fn invoke_body_spec(params: Seq<char>) -> Seq<char> {
    "{\"params\":["@ + json_quoted(params) + "]}"@
}

/// The JSON body that invokes a step with one parameter: the JSON text of
/// the chat update.
pub fn invoke_body(params: &str) -> (r: String)
    ensures
        r@ == invoke_body_spec(params@),
{
    let mut body = String::from_str("{\"params\":[");
    let q = json_string(params);
    body.append(q.as_str());
    body.append("]}");
    body
}

/// The outcome of a worker creation, from the response's status and body:
/// success needs status 200 and a body that names the worker asked for.
pub open spec fn create_outcome(worker_id: Seq<char>, status: u16, body: Seq<char>) -> Result<
    (),
    WorkerError,
> {
    if status != 200 {
        Err(WorkerError::CreateStatus(status))
    } else {
        match json_text_at(body, "/workerId/workerName"@) {
            None => Err(WorkerError::CreateDecode),
            Some(name) => if name == worker_id {
                Ok(())
            } else {
                Err(WorkerError::CreateMismatch)
            },
        }
    }
}

/// Checks the response to a worker creation.
pub fn check_create_response(worker_id: &String, status: u16, body: &str) -> (r: Result<
    (),
    WorkerError,
>)
    ensures
        r == create_outcome(worker_id@, status, body@),
{
    if status != 200 {
        return Err(WorkerError::CreateStatus(status));
    }
    match json_text(body, "/workerId/workerName") {
        None => Err(WorkerError::CreateDecode),
        Some(name) => {
            if name == *worker_id {
                Ok(())
            } else {
                Err(WorkerError::CreateMismatch)
            }
        },
    }
}

/// Reads the invocation credential from the response body.
pub fn check_invocation_key(body: &str) -> (r: Result<String, WorkerError>)
    ensures
        match json_text_at(body@, "/value"@) {
            Some(k) => r matches Ok(key) && key@ == k,
            None => r == Err::<String, WorkerError>(WorkerError::Credential),
        },
{
    match json_text(body, "/value") {
        Some(key) => Ok(key),
        None => Err(WorkerError::Credential),
    }
}

/// A step invocation succeeded only with status 200.
pub fn check_invoke_status(status: u16) -> (r: Result<(), WorkerError>)
    ensures
        status == 200 ==> r is Ok,
        status != 200 ==> r == Err::<(), WorkerError>(WorkerError::InvokeStatus(status)),
{
    if status == 200 {
        Ok(())
    } else {
        Err(WorkerError::InvokeStatus(status))
    }
}

/// The result list of an invocation response.
#[derive(Clone, Debug, PartialEq, Eq)]
pub struct FunctionResult<T> {
    pub result: Vec<T>,
}

/// Unwraps the one result of a step's response envelope; an empty envelope
/// is an error.
pub fn dialog_step<T>(response: FunctionResult<T>) -> (r: Result<T, WorkerError>)
    ensures
        response.result@.len() == 0 ==> r == Err::<T, WorkerError>(WorkerError::NoResult),
        response.result@.len() > 0 ==> r == Ok::<T, WorkerError>(response.result@[0]),
{
    let mut results = response.result;
    if results.len() == 0 {
        Err(WorkerError::NoResult)
    } else {
        Ok(results.remove(0))
    }
}

} // verus!
