//! The dispatch and encoding engine, with the reply envelope: probing a
//! request's file slots, choosing between the JSON and the multipart
//! encoding, building the one body that is sent, and turning a failed
//! reply into a typed error.

use crate::json::{jv_bytes, json_value_bytes, JVal, JsonValue};
use crate::methods::Methods;
use crate::types::{FilePart, FilePartView, InputFileResult, InputFileView, ResponseParameters};
use vstd::prelude::*;
use vstd::string::StringExecFns;
use vstd::string::StrSliceExecFns;

verus! {

broadcast use
    vstd::std_specs::vec::group_vec_axioms,
    vstd::seq::group_seq_axioms,
    vstd::seq_lib::group_seq_lib_default,
    crate::json::lemma_jfields_view;

/// Extra information carried by a failed call: the reply's code and
/// message, with the defaults the wire protocol prescribes, plus the
/// optional hints of the reply.
#[derive(Debug)]
pub struct Error {
    pub code: i32,
    pub message: String,
    pub parameters: Option<ResponseParameters>,
}

impl Error {
    pub fn new(code: i32, message: String) -> (r: Self)
        ensures
            r.code == code,
            r.message == message,
            r.parameters is None,
    {
        Self { code, message, parameters: None }
    }

    /// An error assembled from the optional fields of a reply: a missing
    /// code defaults to 400, a missing description to a fixed message.
    pub fn new_option(
        code: Option<i32>,
        message: Option<String>,
        parameters: Option<ResponseParameters>,
    ) -> (r: Self)
        ensures
            code is Some ==> r.code == code->0,
            code is None ==> r.code == 400,
            message is Some ==> r.message == message->0,
            message is None ==> r.message@ == "server inter error."@,
            r.parameters == parameters,
    {
        Self {
            code: match code {
                Option::Some(c) => c,
                Option::None => 400,
            },
            message: match message {
                Option::Some(m) => m,
                Option::None => String::from_str("server inter error."),
            },
            parameters,
        }
    }

    pub fn not_found() -> (r: Self)
        ensures
            r.code == 404,
            r.message@ == "not found"@,
            r.parameters is None,
    {
        Self { code: 404, message: String::from_str("not found"), parameters: None }
    }
}

/// The uniform envelope of every reply: a flag saying whether the call
/// succeeded, the raw result when it did, and error information when it
/// did not. `ok == false` is authoritative whatever else is present.
pub struct APIResponse {
    pub ok: bool,
    pub error_code: Option<i32>,
    pub result: Option<JsonValue>,
    pub description: Option<String>,
    pub parameters: Option<ResponseParameters>,
}

impl APIResponse {
    /// Unwrap the envelope: a reply with `ok` set is handed back whole,
    /// for the caller to decode its `result`; any other reply becomes a
    /// typed error with the defaulted code and message and the reply's
    /// hints, whichever encoding produced it.
    pub fn parse(self) -> (r: Result<Self, Error>)
        ensures
            self.ok ==> r == Result::<Self, Error>::Ok(self),
            !self.ok ==> r is Err,
            !self.ok ==> {
                let e = r->Err_0;
                &&& (self.error_code is Some ==> e.code == self.error_code->0)
                &&& (self.error_code is None ==> e.code == 400)
                &&& (self.description is Some ==> e.message == self.description->0)
                &&& (self.description is None ==> e.message@ == "server inter error."@)
                &&& e.parameters == self.parameters
            },
    {
        if self.ok {
            return Ok(self);
        }
        Err(Error::new_option(self.error_code, self.description, self.parameters))
    }
}

// ---------------------------------------------------------------------------
// The dispatch / encoding engine.
// ---------------------------------------------------------------------------

/// The body of one part of a multipart form.
pub enum PartBody {
    /// A textual field: a stringified parameter or a resolved reference.
    Text(Vec<u8>),
    /// A file payload, in memory or streamed from a local path.
    File(FilePart),
}

pub enum PartBodyView {
    Text(Seq<u8>),
    File(FilePartView),
}

impl View for PartBody {
    type V = PartBodyView;

    open spec fn view(&self) -> PartBodyView {
        match self {
            PartBody::Text(b) => PartBodyView::Text(b@),
            PartBody::File(p) => PartBodyView::File(p@),
        }
    }
}

/// One named part of a multipart form.
pub struct FormPart {
    pub name: String,
    pub body: PartBody,
}

pub struct FormPartView {
    pub name: Seq<char>,
    pub body: PartBodyView,
}

impl View for FormPart {
    type V = FormPartView;

    open spec fn view(&self) -> FormPartView {
        FormPartView { name: self.name@, body: self.body@ }
    }
}

/// The denotation of a list of form parts.
pub open spec fn parts_view(s: Seq<FormPart>) -> Seq<FormPartView>
    decreases s,
{
    if s.len() == 0 {
        Seq::empty()
    } else {
        seq![s[0]@] + parts_view(s.subrange(1, s.len() as int))
    }
}

/// Pointwise reading of `parts_view`.
pub broadcast proof fn lemma_parts_view(s: Seq<FormPart>)
    ensures
        (#[trigger] parts_view(s)).len() == s.len(),
        forall|i: int| 0 <= i < s.len() ==> parts_view(s)[i] == s[i]@,
    decreases s.len(),
{
    if s.len() > 0 {
        lemma_parts_view(s.subrange(1, s.len() as int));
    }
}

/// The encoded body of one request: either a single JSON document or a
/// multipart form, one network write either way.
pub enum RequestBody {
    Json(Vec<u8>),
    Multipart(Vec<FormPart>),
}

pub enum RequestBodyView {
    Json(Seq<u8>),
    Multipart(Seq<FormPartView>),
}

impl View for RequestBody {
    type V = RequestBodyView;

    open spec fn view(&self) -> RequestBodyView {
        match self {
            RequestBody::Json(b) => RequestBodyView::Json(b@),
            RequestBody::Multipart(parts) => RequestBodyView::Multipart(parts_view(parts@)),
        }
    }
}

/// Everything the transport needs to perform one call: the endpoint and
/// the fully encoded body.
pub struct RequestPlan {
    pub endpoint: String,
    pub body: RequestBody,
}

/// Whether any slot of the set requires a physical upload — the probe
/// that decides the encoding.
pub open spec fn needs_upload_any(files: Seq<(Seq<char>, InputFileView)>) -> bool {
    exists|i: int| 0 <= i < files.len() && (#[trigger] files[i]).1.need_upload()
}

/// An empty slot set never asks for an upload: such a request is always
/// sent as JSON.
pub proof fn lemma_empty_slots_json(files: Seq<(Seq<char>, InputFileView)>)
    requires
        files.len() == 0,
    ensures
        !needs_upload_any(files),
{
}

/// A slot holding in-memory bytes or a local path forces the multipart
/// encoding, whatever the other slots hold.
pub proof fn lemma_upload_slot_multipart(files: Seq<(Seq<char>, InputFileView)>, i: int)
    requires
        0 <= i < files.len(),
        files[i].1 is FileBytes || files[i].1 is FilePath,
    ensures
        needs_upload_any(files),
{
    assert(files[i].1.need_upload());
}

/// The text a resolved slot contributes: references resolve to their
/// wrapped string; for payload parts, the part's file name stands in.
pub open spec fn resolved_text(f: InputFileView) -> Seq<char> {
    match f.data_view() {
        crate::types::InputFileResultView::Text(s) => s,
        crate::types::InputFileResultView::Part(p) => p.file_name,
    }
}

/// Whether the parameter map already has a member of this name.
pub open spec fn has_member(params: Seq<(Seq<char>, JVal)>, name: Seq<char>) -> bool {
    exists|i: int| 0 <= i < params.len() && (#[trigger] params[i]).0 == name
}

/// The entries the resolved slots add to the JSON body: each slot
/// resolved to text under its own name. A slot whose name already stands
/// among the parameters was serialized there as the same text, so the
/// copy that is already present carries it.
pub open spec fn resolved_entries(
    params: Seq<(Seq<char>, JVal)>,
    files: Seq<(Seq<char>, InputFileView)>,
) -> Seq<(Seq<char>, JVal)>
    decreases files.len(),
{
    if files.len() == 0 {
        Seq::empty()
    } else {
        resolved_entries(params, files.drop_last()) + (
        if has_member(params, files.last().0) {
            Seq::empty()
        } else {
            seq![(files.last().0, JVal::Str(resolved_text(files.last().1)))]
        })
    }
}

/// The members of the JSON body: the parameters, then the entries of the
/// resolved slots.
pub open spec fn json_entries_view(
    params: Seq<(Seq<char>, JVal)>,
    files: Seq<(Seq<char>, InputFileView)>,
) -> Seq<(Seq<char>, JVal)> {
    params + resolved_entries(params, files)
}

/// The body of the JSON path: one JSON object.
pub open spec fn json_body_view(
    params: Seq<(Seq<char>, JVal)>,
    files: Seq<(Seq<char>, InputFileView)>,
) -> Seq<u8> {
    jv_bytes(JVal::Obj(json_entries_view(params, files)))
}

/// What one resolved slot contributes to the multipart form.
pub open spec fn slot_part_view(name: Seq<char>, f: InputFileView) -> FormPartView {
    FormPartView {
        name: name,
        body: match f.data_view() {
            crate::types::InputFileResultView::Text(s) => PartBodyView::Text(
                vstd::utf8::encode_utf8(s),
            ),
            crate::types::InputFileResultView::Part(p) => PartBodyView::File(p),
        },
    }
}

/// The parts of the multipart path: one text part per parameter, holding
/// the parameter's JSON text, then one part per slot, text or file as its
/// reference resolves.
pub open spec fn multipart_parts_view(
    params: Seq<(Seq<char>, JVal)>,
    files: Seq<(Seq<char>, InputFileView)>,
) -> Seq<FormPartView> {
    params.map_values(
        |e: (Seq<char>, JVal)| FormPartView { name: e.0, body: PartBodyView::Text(jv_bytes(e.1)) },
    ) + files.map_values(|f: (Seq<char>, InputFileView)| slot_part_view(f.0, f.1))
}

/// Encode one request. The engine probes the descriptor's file slots:
/// if any slot requires a physical upload the whole request is encoded
/// as one multipart form, otherwise as one JSON document with the
/// textual slots inserted under their names. The endpoint is the
/// descriptor's own.
pub fn plan_request<T: Methods>(req: &T) -> (r: RequestPlan)
    ensures
        r.endpoint@ == req.endpoint_view(),
        r.endpoint@.len() > 0,
        needs_upload_any(req.files_view()) ==> r.body@ == RequestBodyView::Multipart(
            multipart_parts_view(req.params_view(), req.files_view()),
        ),
        !needs_upload_any(req.files_view()) ==> r.body@ == RequestBodyView::Json(
            json_body_view(req.params_view(), req.files_view()),
        ),
{
    let files = req.files();
    let ghost files_v: Seq<(Seq<char>, InputFileView)> = req.files_view();
    proof {
        broadcast use crate::types::lemma_slots_view;

    }
    let mut any: bool = false;
    let mut i: usize = 0;
    while i < files.len()
        invariant
            i <= files@.len(),
            crate::types::slots_view(files@) == files_v,
            any == needs_upload_any(files_v.take(i as int)),
        decreases files@.len() - i,
    {
        proof {
            broadcast use crate::types::lemma_slots_view;

        }
        if files[i].1.need_upload() {
            any = true;
        }
        proof {
            if any {
                if files@[i as int].1@.need_upload() {
                    assert(files_v.take(i + 1)[i as int].1.need_upload());
                }
                assert(needs_upload_any(files_v.take(i + 1)));
            } else {
                assert forall|j: int|
                    0 <= j < files_v.take(i + 1).len() implies !(#[trigger] files_v.take(i + 1)[j]).1.need_upload() by {
                    assert(files_v.take(i + 1)[j] == files_v[j]);
                    if j < i {
                        assert(files_v.take(i as int)[j] == files_v[j]);
                        assert(!needs_upload_any(files_v.take(i as int)));
                    }
                }
            }
        }
        i += 1;
    }
    proof {
        assert(files_v.take(files_v.len() as int) =~= files_v);
    }
    let params = req.params();
    let endpoint = req.endpoint();
    if any {
        let mut parts: Vec<FormPart> = Vec::new();
        let mut j: usize = 0;
        while j < params.len()
            invariant
                j <= params@.len(),
                crate::json::fields_view(params@) == req.params_view(),
                parts@.len() == j as int,
                forall|k: int|
                    0 <= k < j ==> (#[trigger] parts@[k])@ == (FormPartView {
                        name: req.params_view()[k].0,
                        body: PartBodyView::Text(jv_bytes(req.params_view()[k].1)),
                    }),
            decreases params@.len() - j,
        {
            let body = json_value_bytes(&params[j].1);
            parts.push(FormPart { name: params[j].0.clone(), body: PartBody::Text(body) });
            j += 1;
        }
        let mut j: usize = 0;
        while j < files.len()
            invariant
                j <= files@.len(),
                crate::types::slots_view(files@) == files_v,
                parts@.len() == params@.len() + j as int,
                crate::json::fields_view(params@) == req.params_view(),
                forall|k: int|
                    0 <= k < params@.len() ==> (#[trigger] parts@[k])@ == (FormPartView {
                        name: req.params_view()[k].0,
                        body: PartBodyView::Text(jv_bytes(req.params_view()[k].1)),
                    }),
                forall|k: int|
                    0 <= k < j ==> (#[trigger] parts@[params@.len() + k])@ == slot_part_view(
                        files_v[k].0,
                        files_v[k].1,
                    ),
            decreases files@.len() - j,
        {
            proof {
                broadcast use crate::types::lemma_slots_view;

            }
            let body = match files[j].1.data() {
                InputFileResult::Text(t) => PartBody::Text(t.as_str().as_bytes_vec()),
                InputFileResult::Part(p) => PartBody::File(p),
            };
            parts.push(FormPart { name: files[j].0.clone(), body });
            j += 1;
        }
        let r = RequestPlan { endpoint, body: RequestBody::Multipart(parts) };
        proof {
            broadcast use lemma_parts_view;

            let target = multipart_parts_view(req.params_view(), files_v);
            assert(parts@.len() == target.len());
            assert forall|k: int| 0 <= k < parts@.len() implies parts_view(parts@)[k] == target[k] by {
                if k < params@.len() {
                    assert(target[k] == (FormPartView {
                        name: req.params_view()[k].0,
                        body: PartBodyView::Text(jv_bytes(req.params_view()[k].1)),
                    }));
                } else {
                    let k2 = k - params@.len();
                    assert(parts@[params@.len() + k2]@ == slot_part_view(
                        files_v[k2].0,
                        files_v[k2].1,
                    ));
                    assert(target[k] == slot_part_view(files_v[k2].0, files_v[k2].1));
                }
            }
            assert(parts_view(parts@) =~= target);
        }
        r
    } else {
        let mut extra: Vec<(String, JsonValue)> = Vec::new();
        let mut j: usize = 0;
        while j < files.len()
            invariant
                j <= files@.len(),
                crate::types::slots_view(files@) == files_v,
                !needs_upload_any(files_v),
                crate::json::fields_view(params@) == req.params_view(),
                crate::json::fields_view(extra@) == resolved_entries(
                    req.params_view(),
                    files_v.take(j as int),
                ),
            decreases files@.len() - j,
        {
            proof {
                broadcast use crate::types::lemma_slots_view;

                if files_v[j as int].1.need_upload() {
                    assert(needs_upload_any(files_v));
                }
                assert(files_v.take(j + 1).drop_last() =~= files_v.take(j as int));
                assert(files_v.take(j + 1).last() == files_v[j as int]);
            }
            let ghost pre_extra: Seq<(String, JsonValue)> = extra@;
            if !params_has_member(&params, &files[j].0) {
                match files[j].1.data() {
                    InputFileResult::Text(t) => {
                        extra.push((files[j].0.clone(), JsonValue::Str(t)));
                        proof {
                            assert(crate::json::fields_view(extra@) =~= crate::json::fields_view(
                                pre_extra,
                            ) + seq![
                                (files_v[j as int].0, JVal::Str(resolved_text(files_v[j as int].1))),
                            ]);
                        }
                    },
                    InputFileResult::Part(_) => {
                        proof {
                            assert(files_v[j as int].1.need_upload());
                            assert(false);
                        }
                    },
                }
            }
            j += 1;
        }
        proof {
            assert(files_v.take(files_v.len() as int) =~= files_v);
        }
        let mut entries = params;
        let ghost entries_pre: Seq<(String, JsonValue)> = entries@;
        let ghost extra_v: Seq<(String, JsonValue)> = extra@;
        entries.append(&mut extra);
        proof {
            assert(crate::json::fields_view(entries@) =~= crate::json::fields_view(entries_pre)
                + crate::json::fields_view(extra_v));
        }
        let body = json_value_bytes(&JsonValue::Obj(entries));
        let r = RequestPlan { endpoint, body: RequestBody::Json(body) };
        r
    }
}

/// Whether the parameter map already carries a member of this name.
fn params_has_member(params: &crate::types::Params, name: &String) -> (r: bool)
    ensures
        r == has_member(crate::json::fields_view(params@), name@),
{
    let ghost pv: Seq<(Seq<char>, JVal)> = crate::json::fields_view(params@);
    let mut found: bool = false;
    let mut i: usize = 0;
    while i < params.len()
        invariant
            i <= params@.len(),
            pv == crate::json::fields_view(params@),
            found == exists|k: int| 0 <= k < i && (#[trigger] pv[k]).0 == name@,
        decreases params@.len() - i,
    {
        if params[i].0 == *name {
            found = true;
            proof {
                assert(pv[i as int].0 == name@);
            }
        }
        proof {
            if found && !(exists|k: int| 0 <= k < i && (#[trigger] pv[k]).0 == name@) {
                assert(pv[i as int].0 == name@);
            }
        }
        i += 1;
    }
    found
}

/// The URL a request is posted to: the base, the token, a slash, and the
/// endpoint name, in that order.
pub fn api_url(base: &str, token: &str, endpoint: &str) -> (r: String)
    ensures
        r@ == base@ + token@ + "/"@ + endpoint@,
{
    let mut s = base.to_owned();
    s.append(token);
    s.append("/");
    s.append(endpoint);
    proof {
        assert(s@ =~= base@ + token@ + "/"@ + endpoint@);
    }
    s
}

} // verus!
