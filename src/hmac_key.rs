//! HMAC keys: credentials that a service account signs requests with.
use crate::error::{need, Error, Result};
use crate::json::{deref, field, parsed_json, put, text_of, Json};
use crate::path::seg;
use crate::request::{join, plain, with_body, Client, Method, Request};
use crate::response::{all_read, decode_body, items_in, list_items, list_outcome, record_outcome};
use crate::text::same;
use crate::time::{instant_in, Timestamp};
use vstd::prelude::*;

verus! {

broadcast use crate::json::lemma_member_of_push;

/// Where a key stands in its life.
#[derive(Clone, Copy, Debug, PartialEq, Eq, Structural)]
pub enum HmacState {
    /// The key signs requests.
    Active,
    /// The key signs nothing, and may be deleted.
    Inactive,
    /// The key is gone.
    Deleted,
}

/// The wire form of a key state.
pub open spec fn state_text(s: HmacState) -> Seq<char> {
    match s {
        HmacState::Active => "ACTIVE"@,
        HmacState::Inactive => "INACTIVE"@,
        HmacState::Deleted => "DELETED"@,
    }
}

/// The key state whose wire form is `s`, matched case-sensitively.
pub open spec fn state_of(s: Seq<char>) -> Option<HmacState> {
    if s == "ACTIVE"@ {
        Some(HmacState::Active)
    } else if s == "INACTIVE"@ {
        Some(HmacState::Inactive)
    } else if s == "DELETED"@ {
        Some(HmacState::Deleted)
    } else {
        None
    }
}

/// The key state that an optional JSON member names.
pub open spec fn state_in(v: Option<Json>) -> Option<HmacState> {
    match text_of(v) {
        Some(s) => state_of(s),
        None => None,
    }
}

/// Each key state reads back from its wire form.
pub proof fn lemma_state_text(s: HmacState)
    ensures
        state_of(state_text(s)) == Some(s),
{
    reveal_strlit("ACTIVE");
    reveal_strlit("INACTIVE");
    reveal_strlit("DELETED");
    assert("ACTIVE"@.len() != "INACTIVE"@.len());
    assert("ACTIVE"@.len() != "DELETED"@.len());
    assert("INACTIVE"@.len() != "DELETED"@.len());
}

impl HmacState {
    /// The wire form of this state.
    pub fn as_text(&self) -> (r: &'static str)
        ensures
            r@ == state_text(*self),
    {
        match self {
            HmacState::Active => "ACTIVE",
            HmacState::Inactive => "INACTIVE",
            HmacState::Deleted => "DELETED",
        }
    }

    /// The state with wire form `s`.
    pub fn parse(s: &str) -> (r: Option<HmacState>)
        ensures
            r == state_of(s@),
    {
        if same(s, "ACTIVE") {
            Some(HmacState::Active)
        } else if same(s, "INACTIVE") {
            Some(HmacState::Inactive)
        } else if same(s, "DELETED") {
            Some(HmacState::Deleted)
        } else {
            None
        }
    }

    /// Reads a state from an optional JSON member.
    pub fn from_member(v: Option<&Json>) -> (r: Option<HmacState>)
        ensures
            r == state_in(deref(v)),
    {
        match v {
            Some(Json::Str(s)) => HmacState::parse(s.as_str()),
            _ => None,
        }
    }
}

/// What the service tells of a key, without its secret.
#[derive(Debug)]
pub struct HmacMeta {
    /// Always `storage#hmacKeyMetadata`.
    pub kind: String,
    /// The id of the key.
    pub id: String,
    /// The link to the key.
    pub self_link: String,
    /// The access id that requests signed with the key carry.
    pub access_id: String,
    /// The project that owns the key.
    pub project_id: String,
    /// The email address of the service account that the key belongs to.
    pub service_account_email: String,
    /// The state of the key.
    pub state: HmacState,
    /// When the key was created.
    pub time_created: Timestamp,
    /// When the key was last changed.
    pub updated: Timestamp,
    /// The HTTP entity tag of the key.
    pub etag: String,
}

/// The content of an `HmacMeta`.
pub struct HmacMetaView {
    pub kind: Seq<char>,
    pub id: Seq<char>,
    pub self_link: Seq<char>,
    pub access_id: Seq<char>,
    pub project_id: Seq<char>,
    pub service_account_email: Seq<char>,
    pub state: HmacState,
    pub time_created: Timestamp,
    pub updated: Timestamp,
    pub etag: Seq<char>,
}

impl View for HmacMeta {
    type V = HmacMetaView;

    open spec fn view(&self) -> HmacMetaView {
        HmacMetaView {
            kind: self.kind@,
            id: self.id@,
            self_link: self.self_link@,
            access_id: self.access_id@,
            project_id: self.project_id@,
            service_account_email: self.service_account_email@,
            state: self.state,
            time_created: self.time_created,
            updated: self.updated,
            etag: self.etag@,
        }
    }
}

/// The key metadata that a JSON object describes, with its members in camelCase.
pub open spec fn hmac_meta_of(j: Json) -> Option<HmacMetaView> {
    let kind = text_of(field(j, "kind"@));
    let id = text_of(field(j, "id"@));
    let self_link = text_of(field(j, "selfLink"@));
    let access_id = text_of(field(j, "accessId"@));
    let project_id = text_of(field(j, "projectId"@));
    let service_account_email = text_of(field(j, "serviceAccountEmail"@));
    let state = state_in(field(j, "state"@));
    let time_created = instant_in(field(j, "timeCreated"@));
    let updated = instant_in(field(j, "updated"@));
    let etag = text_of(field(j, "etag"@));
    if kind is Some && id is Some && self_link is Some && access_id is Some && project_id is Some
        && service_account_email is Some && state is Some && time_created is Some
        && updated is Some && etag is Some {
        Some(
            HmacMetaView {
                kind: kind->0,
                id: id->0,
                self_link: self_link->0,
                access_id: access_id->0,
                project_id: project_id->0,
                service_account_email: service_account_email->0,
                state: state->0,
                time_created: time_created->0,
                updated: updated->0,
                etag: etag->0,
            },
        )
    } else {
        None
    }
}

/// A new key: its metadata and its secret, which the service shows only once.
#[derive(Debug)]
pub struct HmacKey {
    /// Always `storage#hmacKey`.
    pub kind: String,
    /// What the service tells of the key.
    pub metadata: HmacMeta,
    /// The secret, base64-encoded.
    pub secret: String,
}

/// The content of an `HmacKey`.
pub struct HmacKeyView {
    pub kind: Seq<char>,
    pub metadata: HmacMetaView,
    pub secret: Seq<char>,
}

impl View for HmacKey {
    type V = HmacKeyView;

    open spec fn view(&self) -> HmacKeyView {
        HmacKeyView { kind: self.kind@, metadata: self.metadata@, secret: self.secret@ }
    }
}

/// The new key that a JSON object describes.
pub open spec fn hmac_key_of(j: Json) -> Option<HmacKeyView> {
    let kind = text_of(field(j, "kind"@));
    let metadata = match field(j, "metadata"@) {
        Some(m) => hmac_meta_of(m),
        None => None,
    };
    let secret = text_of(field(j, "secret"@));
    if kind is Some && metadata is Some && secret is Some {
        Some(HmacKeyView { kind: kind->0, metadata: metadata->0, secret: secret->0 })
    } else {
        None
    }
}

/// The address of a project's HMAC keys.
pub open spec fn hmac_keys_url(base: Seq<char>, project: Seq<char>) -> Seq<char> {
    base + "/projects/"@ + seg(project) + "/hmacKeys"@
}

/// The address of one HMAC key of a project.
pub open spec fn hmac_key_url(base: Seq<char>, project: Seq<char>, access_id: Seq<char>) -> Seq<
    char,
> {
    hmac_keys_url(base, project) + "/"@ + seg(access_id)
}

impl HmacMeta {
    /// Reads key metadata from its JSON object.
    pub fn from_json(j: &Json) -> (r: Result<HmacMeta>)
        ensures
            match hmac_meta_of(*j) {
                Some(v) => r matches Ok(x) && x@ == v,
                None => r matches Err(Error::Decode(_)),
            },
    {
        Ok(HmacMeta {
            kind: need(j.text("kind"), "kind")?,
            id: need(j.text("id"), "id")?,
            self_link: need(j.text("selfLink"), "selfLink")?,
            access_id: need(j.text("accessId"), "accessId")?,
            project_id: need(j.text("projectId"), "projectId")?,
            service_account_email: need(j.text("serviceAccountEmail"), "serviceAccountEmail")?,
            state: need(HmacState::from_member(j.get("state")), "state")?,
            time_created: need(Timestamp::from_member(j.get("timeCreated")), "timeCreated")?,
            updated: need(Timestamp::from_member(j.get("updated")), "updated")?,
            etag: need(j.text("etag"), "etag")?,
        })
    }

    /// Reads the response to a read or an update of a key.
    pub fn from_response(body: &str) -> (r: Result<HmacMeta>)
        ensures
            record_outcome(body@, r, |j: Json| hmac_meta_of(j), |x: HmacMeta| x@),
    {
        let j = decode_body(body)?;
        HmacMeta::from_json(&j)
    }
}

impl HmacKey {
    /// Reads a new key from its JSON object.
    pub fn from_json(j: &Json) -> (r: Result<HmacKey>)
        ensures
            match hmac_key_of(*j) {
                Some(v) => r matches Ok(x) && x@ == v,
                None => r matches Err(Error::Decode(_)),
            },
    {
        let kind = need(j.text("kind"), "kind")?;
        let metadata = match j.get("metadata") {
            Some(m) => HmacMeta::from_json(m)?,
            None => {
                return Err(Error::Decode(String::from_str("missing or invalid member `metadata`")));
            },
        };
        let secret = need(j.text("secret"), "secret")?;
        Ok(HmacKey { kind, metadata, secret })
    }

    /// Reads the response to a create.
    pub fn from_response(body: &str) -> (r: Result<HmacKey>)
        ensures
            record_outcome(body@, r, |j: Json| hmac_key_of(j), |x: HmacKey| x@),
    {
        let j = decode_body(body)?;
        HmacKey::from_json(&j)
    }

    /// Reads the response to a list. A response without `items` lists no key; an item
    /// that does not read as key metadata fails the whole list.
    pub fn list_from_response(body: &str) -> (r: Result<Vec<HmacMeta>>)
        ensures
            list_outcome(body@, r, |j: Json| hmac_meta_of(j), |x: HmacMeta| x@),
    {
        let j = decode_body(body)?;
        let ghost whole = j;
        let items = list_items(j)?;
        let mut out: Vec<HmacMeta> = Vec::new();
        let mut i: usize = 0;
        while i < items.len()
            invariant
                parsed_json(body@) == Some(whole),
                field(whole, "error"@) is None,
                items_in(whole) == Some(items@),
                0 <= i <= items@.len(),
                out@.len() == i,
                forall|k: int| 0 <= k < i ==> hmac_meta_of(#[trigger] items@[k]) == Some(out@[k]@),
            decreases items@.len() - i,
        {
            match HmacMeta::from_json(&items[i]) {
                Ok(x) => out.push(x),
                Err(e) => {
                    assert(!all_read(items@, |j: Json| hmac_meta_of(j))) by {
                        assert((|j: Json| hmac_meta_of(j))(items@[i as int]) is None);
                    }
                    return Err(e);
                },
            }
            i = i + 1;
        }
        assert(all_read(items@, |j: Json| hmac_meta_of(j)));
        assert(out@.map_values(|x: HmacMeta| x@) =~= items@.map_values(
            |x: Json| (|j: Json| hmac_meta_of(j))(x)->0,
        ));
        Ok(out)
    }

    /// The request that creates a key for the client's service account; there is none
    /// to make where no service account is configured.
    pub fn create_request(client: &Client) -> (r: Result<Request>)
        ensures
            client.service_account is None ==> r matches Err(Error::MissingServiceAccount),
            client.service_account matches Some(a) ==> r matches Ok(q) && q.method == Method::Post
                && q.url@ == hmac_keys_url(client.base_url@, client.project_id@) && q.query@.len()
                == 1 && q.query@[0].0@ == "serviceAccountEmail"@ && q.query@[0].1@
                == a.client_email@ && q.body is None,
    {
        match &client.service_account {
            None => Err(Error::MissingServiceAccount),
            Some(a) => {
                let url = join(client.base_url.clone(), "/projects/", client.project_id.as_str());
                let mut q = plain(Method::Post, url.concat("/hmacKeys"));
                q.query.push((String::from_str("serviceAccountEmail"), a.client_email.clone()));
                Ok(q)
            },
        }
    }

    /// The request that lists the project's keys.
    pub fn list_request(client: &Client) -> (r: Request)
        ensures
            r.method == Method::Get,
            r.url@ == hmac_keys_url(client.base_url@, client.project_id@),
            r.query@.len() == 0,
            r.body is None,
    {
        let url = join(client.base_url.clone(), "/projects/", client.project_id.as_str());
        plain(Method::Get, url.concat("/hmacKeys"))
    }

    /// The request that reads the metadata of the key `access_id`.
    pub fn read_request(client: &Client, access_id: &str) -> (r: Request)
        ensures
            r.method == Method::Get,
            r.url@ == hmac_key_url(client.base_url@, client.project_id@, access_id@),
            r.query@.len() == 0,
            r.body is None,
    {
        let url = join(client.base_url.clone(), "/projects/", client.project_id.as_str());
        plain(Method::Get, join(url.concat("/hmacKeys"), "/", access_id))
    }

    /// The request that moves the key `access_id` to `state`; its body is `{"state": ..}`.
    pub fn update_request(client: &Client, access_id: &str, state: HmacState) -> (r: Request)
        ensures
            r.method == Method::Put,
            r.url@ == hmac_key_url(client.base_url@, client.project_id@, access_id@),
            r.query@.len() == 0,
            r.body matches Some(b) && b matches Json::Object(f) && f@.len() == 1 && state_in(
                field(b, "state"@),
            ) == Some(state),
    {
        let url = join(client.base_url.clone(), "/projects/", client.project_id.as_str());
        let mut f: Vec<(String, Json)> = Vec::new();
        put(&mut f, "state", Json::Str(String::from_str(state.as_text())));
        proof {
            lemma_state_text(state);
        }
        with_body(Method::Put, join(url.concat("/hmacKeys"), "/", access_id), Json::Object(f))
    }

    /// The request that deletes the key `access_id`, which must be inactive.
    pub fn delete_request(client: &Client, access_id: &str) -> (r: Request)
        ensures
            r.method == Method::Delete,
            r.url@ == hmac_key_url(client.base_url@, client.project_id@, access_id@),
            r.query@.len() == 0,
            r.body is None,
    {
        let url = join(client.base_url.clone(), "/projects/", client.project_id.as_str());
        plain(Method::Delete, join(url.concat("/hmacKeys"), "/", access_id))
    }
}

} // verus!
