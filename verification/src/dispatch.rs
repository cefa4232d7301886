//! The request dispatcher: routes a request to one of three behaviours —
//! serve the form, process an unlock submission, or answer not-found —
//! and translates an unlock outcome into an HTTP response and, on
//! success, a shutdown signal. The transport hands in the method, the
//! path and the body as plain values and performs the response; nothing
//! here does I/O.

use vstd::prelude::*;

use crate::bytes::range_eq;
use crate::form::form_key;
use crate::form::form_key_value;
use crate::shutdown::ShutdownSignal;
use crate::zfs::LoadKeyError;

verus! {

/// The request methods the dispatcher distinguishes.
#[derive(Debug, PartialEq, Eq, Structural, Clone, Copy)]
pub enum HttpMethod {
    Get,
    Post,
    /// Any method other than GET and POST.
    Other,
}

/// A response: a status code and a plain body.
pub struct HttpResponse {
    pub status: u16,
    pub body: Vec<u8>,
}

/// What the dispatcher decides for one request: serve the static form
/// content (which the transport owns), attempt an unlock with the
/// submitted key, or answer at once.
pub enum RequestPlan {
    /// GET `/`: answer 200 with the static form content.
    ServeForm,
    /// POST `/loadkey` with a `key` field: hand exactly this value to the
    /// unlock backend.
    AttemptUnlock { key: Vec<u8> },
    /// Answer at once, attempting nothing.
    Respond { response: HttpResponse },
}

/// The path `/`.
pub open spec fn root_path() -> Seq<u8> {
    seq![47u8]
}

/// The path `/loadkey`.
pub open spec fn loadkey_path() -> Seq<u8> {
    seq![47u8, 108u8, 111u8, 97u8, 100u8, 107u8, 101u8, 121u8]
}

/// The success body `Key loaded successfully`.
pub open spec fn success_text() -> Seq<u8> {
    seq![
        75u8, 101u8, 121u8, 32u8, 108u8, 111u8, 97u8, 100u8, 101u8, 100u8, 32u8, 115u8, 117u8,
        99u8, 99u8, 101u8, 115u8, 115u8, 102u8, 117u8, 108u8, 108u8, 121u8,
    ]
}

/// The missing-field body `Invalid request: Must provide a key`.
pub open spec fn missing_key_text() -> Seq<u8> {
    seq![
        73u8, 110u8, 118u8, 97u8, 108u8, 105u8, 100u8, 32u8, 114u8, 101u8, 113u8, 117u8, 101u8,
        115u8, 116u8, 58u8, 32u8, 77u8, 117u8, 115u8, 116u8, 32u8, 112u8, 114u8, 111u8, 118u8,
        105u8, 100u8, 101u8, 32u8, 97u8, 32u8, 107u8, 101u8, 121u8,
    ]
}

/// Routes one request.
///
/// GET `/` serves the form. POST `/loadkey` parses the body as a form:
/// if it has a `key` field, the plan is to attempt the unlock with the
/// field's decoded value, exactly as submitted; if it has none, the plan
/// answers 400 with a diagnostic body and the backend is never invoked.
/// Every other request is answered 404 with an empty body.
pub fn plan_request(method: HttpMethod, path: &Vec<u8>, body: &Vec<u8>) -> (r: RequestPlan)
    ensures
        method == HttpMethod::Get && path@ == root_path() ==> r is ServeForm,
        method == HttpMethod::Post && path@ == loadkey_path() ==> {
            &&& form_key(body@) matches Some(v) ==> (r matches RequestPlan::AttemptUnlock { key }
                && key@ == v)
            &&& form_key(body@) is None ==> (r matches RequestPlan::Respond { response }
                && response.status == 400 && response.body@ == missing_key_text())
        },
        !(method == HttpMethod::Get && path@ == root_path()) && !(method == HttpMethod::Post
            && path@ == loadkey_path()) ==> (r matches RequestPlan::Respond { response }
            && response.status == 404 && response.body@ == Seq::<u8>::empty()),
{
    let root: Vec<u8> = vec![47u8];
    assert(root@ =~= root_path());
    let loadkey: Vec<u8> = vec![47u8, 108u8, 111u8, 97u8, 100u8, 107u8, 101u8, 121u8];
    assert(loadkey@ =~= loadkey_path());
    let is_root = range_eq(path, 0, path.len(), &root);
    let is_loadkey = range_eq(path, 0, path.len(), &loadkey);
    assert(path@.subrange(0, path@.len() as int) =~= path@);
    match method {
        HttpMethod::Get if is_root => RequestPlan::ServeForm,
        HttpMethod::Post if is_loadkey => {
            match form_key_value(body) {
                Some(key) => RequestPlan::AttemptUnlock { key },
                None => {
                    let missing: Vec<u8> = vec![
                        73u8, 110u8, 118u8, 97u8, 108u8, 105u8, 100u8, 32u8, 114u8, 101u8, 113u8,
                        117u8, 101u8, 115u8, 116u8, 58u8, 32u8, 77u8, 117u8, 115u8, 116u8, 32u8,
                        112u8, 114u8, 111u8, 118u8, 105u8, 100u8, 101u8, 32u8, 97u8, 32u8, 107u8,
                        101u8, 121u8,
                    ];
                    assert(missing@ =~= missing_key_text());
                    RequestPlan::Respond {
                        response: HttpResponse { status: 400, body: missing },
                    }
                },
            }
        },
        _ => RequestPlan::Respond { response: HttpResponse { status: 404, body: Vec::new() } },
    }
}

/// Concludes an unlock attempt: on success a 200 response with the
/// success body and a shutdown signal, delivered into `shutdown` exactly
/// here; on failure a 401 response whose body is the error's diagnostic
/// text, and the shutdown slot untouched.
pub fn handle_unlock(outcome: &Result<(), LoadKeyError>, shutdown: &mut ShutdownSignal) -> (r:
    HttpResponse)
    ensures
        outcome is Ok ==> r.status == 200 && r.body@ == success_text()
            && final(shutdown).pending(),
        outcome matches Err(e) ==> r.status == 401 && r.body@ == e.message_spec()
            && *final(shutdown) == *old(shutdown),
{
    match outcome {
        Ok(_) => {
            shutdown.signal();
            let body: Vec<u8> = vec![
                75u8, 101u8, 121u8, 32u8, 108u8, 111u8, 97u8, 100u8, 101u8, 100u8, 32u8, 115u8,
                117u8, 99u8, 99u8, 101u8, 115u8, 115u8, 102u8, 117u8, 108u8, 108u8, 121u8,
            ];
            assert(body@ =~= success_text());
            HttpResponse { status: 200, body }
        },
        Err(e) => HttpResponse { status: 401, body: e.message() },
    }
}

} // verus!
