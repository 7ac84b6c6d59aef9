//! Default access-control entries: those that a bucket gives each new object.
use crate::common::{
    lemma_record_keys,
    entity_in, entity_text, entity_wf, grant_json, opt_project_team_of, opt_team_view, role_in,
    Entity, EntityView, ProjectTeam, ProjectTeamView, Role,
};
use crate::error::{need, Error, Result};
use crate::json::{field, parsed_json, opt_str, opt_text_of, opt_view, put, text_of, Json};
use crate::path::seg;
use crate::request::{join, plain, with_body, Client, Method, Request};
use crate::response::{all_read, decode_body, items_in, list_items, list_outcome, record_outcome};
use vstd::prelude::*;

verus! {

broadcast use crate::json::lemma_member_of_push;

/// One entry of the access-control list that a bucket gives each new object.
///
/// The service does not say which bucket an entry belongs to; the library fills in the
/// bucket that the caller named, which later updates and deletes need.
#[derive(Debug)]
pub struct DefaultObjectAccessControl {
    /// Always `storage#objectAccessControl`.
    pub kind: String,
    /// Who the entry is for.
    pub entity: Entity,
    /// What the entity may do.
    pub role: Role,
    /// The email address of the entity, if any.
    pub email: Option<String>,
    /// The id of the entity, if any.
    pub entity_id: Option<String>,
    /// The domain of the entity, if any.
    pub domain: Option<String>,
    /// The project team of the entity, if any.
    pub project_team: Option<ProjectTeam>,
    /// The HTTP entity tag of the entry.
    pub etag: String,
    /// The name of the bucket, as the caller gave it.
    pub bucket: String,
}

/// The content of a `DefaultObjectAccessControl`.
pub struct DefaultObjectAccessControlView {
    pub kind: Seq<char>,
    pub entity: EntityView,
    pub role: Role,
    pub email: Option<Seq<char>>,
    pub entity_id: Option<Seq<char>>,
    pub domain: Option<Seq<char>>,
    pub project_team: Option<ProjectTeamView>,
    pub etag: Seq<char>,
    pub bucket: Seq<char>,
}

impl View for DefaultObjectAccessControl {
    type V = DefaultObjectAccessControlView;

    open spec fn view(&self) -> DefaultObjectAccessControlView {
        DefaultObjectAccessControlView {
            kind: self.kind@,
            entity: self.entity@,
            role: self.role,
            email: opt_view(self.email),
            entity_id: opt_view(self.entity_id),
            domain: opt_view(self.domain),
            project_team: opt_team_view(self.project_team),
            etag: self.etag@,
            bucket: self.bucket@,
        }
    }
}

/// The entry that a JSON object describes, with its members in camelCase, as an entry
/// of `bucket`. A `bucket` member of the object is not read.
pub open spec fn default_acl_of(j: Json, bucket: Seq<char>) -> Option<
    DefaultObjectAccessControlView,
> {
    let kind = text_of(field(j, "kind"@));
    let entity = entity_in(field(j, "entity"@));
    let role = role_in(field(j, "role"@));
    let email = opt_text_of(field(j, "email"@));
    let entity_id = opt_text_of(field(j, "entityId"@));
    let domain = opt_text_of(field(j, "domain"@));
    let project_team = opt_project_team_of(field(j, "projectTeam"@));
    let etag = text_of(field(j, "etag"@));
    if kind is Some && entity is Some && role is Some && email is Some && entity_id is Some && domain is Some
        && project_team is Some && etag is Some {
        Some(
            DefaultObjectAccessControlView {
                kind: kind->0,
                entity: entity->0,
                role: role->0,
                email: email->0,
                entity_id: entity_id->0,
                domain: domain->0,
                project_team: project_team->0,
                etag: etag->0,
                bucket,
            },
        )
    } else {
        None
    }
}

/// The address of a bucket's default object access-control list.
pub open spec fn default_acl_url(base: Seq<char>, bucket: Seq<char>) -> Seq<char> {
    base + "/b/"@ + seg(bucket) + "/defaultObjectAcl"@
}

/// The address of one entry of a bucket's default object access-control list.
pub open spec fn default_acl_entry_url(
    base: Seq<char>,
    bucket: Seq<char>,
    entity: EntityView,
) -> Seq<char> {
    default_acl_url(base, bucket) + "/"@ + seg(entity_text(entity))
}

/// A request for a new entry: who, and what they may do.
#[derive(Debug)]
pub struct NewDefaultObjectAccessControl {
    /// Who the entry is for.
    pub entity: Entity,
    /// What the entity may do.
    pub role: Role,
}

impl DefaultObjectAccessControl {
    /// Reads an entry of `bucket` from its JSON object.
    pub fn from_json(j: &Json, bucket: &str) -> (r: Result<DefaultObjectAccessControl>)
        ensures
            match default_acl_of(*j, bucket@) {
                Some(v) => r matches Ok(x) && x@ == v,
                None => r matches Err(Error::Decode(_)),
            },
    {
        Ok(DefaultObjectAccessControl {
            kind: need(j.text("kind"), "kind")?,
            entity: need(Entity::from_member(j.get("entity")), "entity")?,
            role: need(Role::from_member(j.get("role")), "role")?,
            email: need(j.opt_text("email"), "email")?,
            entity_id: need(j.opt_text("entityId"), "entityId")?,
            domain: need(j.opt_text("domain"), "domain")?,
            project_team: need(ProjectTeam::from_member(j.get("projectTeam")), "projectTeam")?,
            etag: need(j.text("etag"), "etag")?,
            bucket: String::from_str(bucket),
        })
    }

    /// The JSON object for this entry, with its members in camelCase. It reads back as
    /// this entry wherever the entity's text form does.
    pub fn to_json(&self) -> (r: Json)
        ensures
            text_of(field(r, "entity"@)) == Some(entity_text(self.entity@)),
            field(r, "error"@) is None,
            entity_wf(self.entity@) ==> default_acl_of(r, self.bucket@) == Some(self@),
    {
        let mut f: Vec<(String, Json)> = Vec::new();
        put(&mut f, "kind", Json::Str(self.kind.clone()));
        put(&mut f, "entity", self.entity.to_json());
        put(&mut f, "role", self.role.to_json());
        put(&mut f, "email", opt_str(&self.email));
        put(&mut f, "entityId", opt_str(&self.entity_id));
        put(&mut f, "domain", opt_str(&self.domain));
        put(&mut f, "projectTeam", ProjectTeam::opt_to_json(&self.project_team));
        put(&mut f, "etag", Json::Str(self.etag.clone()));
        put(&mut f, "bucket", Json::Str(self.bucket.clone()));
        proof {
            lemma_record_keys();
        }
        Json::Object(f)
    }
}

impl NewDefaultObjectAccessControl {
    /// The JSON body that asks for this entry: exactly its entity and its role.
    pub fn to_json(&self) -> (r: Json)
        ensures
            r matches Json::Object(f) && f@.len() == 2,
            text_of(field(r, "entity"@)) == Some(entity_text(self.entity@)),
            role_in(field(r, "role"@)) == Some(self.role),
    {
        grant_json(&self.entity, self.role)
    }
}

impl DefaultObjectAccessControl {
    /// The request that adds an entry to the default object access-control list of
    /// `bucket`.
    pub fn create_request(client: &Client, bucket: &str, new: &NewDefaultObjectAccessControl) -> (r:
        Request)
        ensures
            r.method == Method::Post,
            r.url@ == default_acl_url(client.base_url@, bucket@),
            r.query@.len() == 0,
            r.body matches Some(b) && b matches Json::Object(f) && f@.len() == 2 && text_of(
                field(b, "entity"@),
            ) == Some(entity_text(new.entity@)) && role_in(field(b, "role"@)) == Some(new.role),
    {
        let url = join(client.base_url.clone(), "/b/", bucket).concat("/defaultObjectAcl");
        with_body(Method::Post, url, new.to_json())
    }

    /// The request that lists the default object access-control entries of `bucket`.
    pub fn list_request(client: &Client, bucket: &str) -> (r: Request)
        ensures
            r.method == Method::Get,
            r.url@ == default_acl_url(client.base_url@, bucket@),
            r.query@.len() == 0,
            r.body is None,
    {
        let url = join(client.base_url.clone(), "/b/", bucket).concat("/defaultObjectAcl");
        plain(Method::Get, url)
    }

    /// The request that reads the default entry of `entity` on `bucket`.
    pub fn read_request(client: &Client, bucket: &str, entity: &Entity) -> (r: Request)
        ensures
            r.method == Method::Get,
            r.url@ == default_acl_entry_url(client.base_url@, bucket@, entity@),
            r.query@.len() == 0,
            r.body is None,
    {
        let url = join(client.base_url.clone(), "/b/", bucket).concat("/defaultObjectAcl");
        let url = join(url, "/", entity.to_text().as_str());
        plain(Method::Get, url)
    }

    /// The request that replaces this entry with its present content.
    pub fn update_request(&self, client: &Client) -> (r: Request)
        ensures
            r.method == Method::Put,
            r.url@ == default_acl_entry_url(client.base_url@, self.bucket@, self.entity@),
            r.query@.len() == 0,
            r.body matches Some(b) && text_of(field(b, "entity"@)) == Some(
                entity_text(self.entity@),
            ) && field(b, "error"@) is None && (entity_wf(self.entity@) ==> default_acl_of(b, self.bucket@) == Some(self@)),
    {
        let url = join(client.base_url.clone(), "/b/", self.bucket.as_str()).concat("/defaultObjectAcl");
        let url = join(url, "/", self.entity.to_text().as_str());
        with_body(Method::Put, url, self.to_json())
    }

    /// The request that deletes this entry.
    pub fn delete_request(&self, client: &Client) -> (r: Request)
        ensures
            r.method == Method::Delete,
            r.url@ == default_acl_entry_url(client.base_url@, self.bucket@, self.entity@),
            r.query@.len() == 0,
            r.body is None,
    {
        let url = join(client.base_url.clone(), "/b/", self.bucket.as_str()).concat("/defaultObjectAcl");
        let url = join(url, "/", self.entity.to_text().as_str());
        plain(Method::Delete, url)
    }

    /// Reads the response to a create, read or update of an entry of `bucket`.
    pub fn from_response(bucket: &str, body: &str) -> (r: Result<DefaultObjectAccessControl>)
        ensures
            record_outcome(
                body@,
                r,
                |j: Json| default_acl_of(j, bucket@),
                |x: DefaultObjectAccessControl| x@,
            ),
    {
        let j = decode_body(body)?;
        DefaultObjectAccessControl::from_json(&j, bucket)
    }

    /// Reads the reply to an update of this entry: the entry it gives carries this
    /// entry's bucket.
    pub fn update_from_response(&self, body: &str) -> (r: Result<DefaultObjectAccessControl>)
        ensures
            record_outcome(
                body@,
                r,
                |j: Json| default_acl_of(j, self.bucket@),
                |x: DefaultObjectAccessControl| x@,
            ),
            r matches Ok(x) ==> x.bucket@ == self.bucket@,
    {
        DefaultObjectAccessControl::from_response(self.bucket.as_str(), body)
    }

    /// Reads the response to a list of the entries of `bucket`.
    pub fn list_from_response(bucket: &str, body: &str) -> (r: Result<
        Vec<DefaultObjectAccessControl>,
    >)
        ensures
            list_outcome(
                body@,
                r,
                |j: Json| default_acl_of(j, bucket@),
                |x: DefaultObjectAccessControl| x@,
            ),
    {
        let j = decode_body(body)?;
        let ghost whole = j;
        let items = list_items(j)?;
        let mut out: Vec<DefaultObjectAccessControl> = Vec::new();
        let mut i: usize = 0;
        while i < items.len()
            invariant
                parsed_json(body@) == Some(whole),
                field(whole, "error"@) is None,
                items_in(whole) == Some(items@),
                0 <= i <= items@.len(),
                out@.len() == i,
                forall|k: int|
                    0 <= k < i ==> default_acl_of(#[trigger] items@[k], bucket@) == Some(out@[k]@),
            decreases items@.len() - i,
        {
            match DefaultObjectAccessControl::from_json(&items[i], bucket) {
                Ok(x) => out.push(x),
                Err(e) => {
                    assert(!all_read(items@, |j: Json| default_acl_of(j, bucket@))) by {
                        assert((|j: Json| default_acl_of(j, bucket@))(items@[i as int]) is None);
                    }
                    return Err(e);
                },
            }
            i = i + 1;
        }
        assert(all_read(items@, |j: Json| default_acl_of(j, bucket@)));
        assert(out@.map_values(|x: DefaultObjectAccessControl| x@) =~= items@.map_values(
            |x: Json| (|j: Json| default_acl_of(j, bucket@))(x)->0,
        ));
        Ok(out)
    }
}

/// An entry that a create, read or update gives back carries the bucket that the caller
/// named, though the service's response leaves it out.
pub proof fn lemma_record_carries_bucket(
    body: Seq<char>,
    bucket: Seq<char>,
    r: Result<DefaultObjectAccessControl>,
)
    requires
        record_outcome(
            body,
            r,
            |j: Json| default_acl_of(j, bucket),
            |x: DefaultObjectAccessControl| x@,
        ),
    ensures
        r matches Ok(x) ==> x.bucket@ == bucket,
{
}

/// Every entry that a list gives back carries the bucket that the caller named.
pub proof fn lemma_list_carries_bucket(
    body: Seq<char>,
    bucket: Seq<char>,
    r: Result<Vec<DefaultObjectAccessControl>>,
)
    requires
        list_outcome(
            body,
            r,
            |j: Json| default_acl_of(j, bucket),
            |x: DefaultObjectAccessControl| x@,
        ),
    ensures
        r matches Ok(v) ==> forall|i: int| 0 <= i < v@.len() ==> (#[trigger] v@[i]).bucket@ == bucket,
{
    if let Ok(v) = r {
        let j = parsed_json(body)->0;
        let items = items_in(j)->0;
        let of = |j: Json| default_acl_of(j, bucket);
        assert(all_read(items, of));
        assert(v@.map_values(|x: DefaultObjectAccessControl| x@) == items.map_values(
            |x: Json| of(x)->0,
        ));
        assert(v@.len() == items.len()) by {
            assert(v@.map_values(|x: DefaultObjectAccessControl| x@).len() == v@.len());
            assert(items.map_values(|x: Json| of(x)->0).len() == items.len());
        }
        assert forall|i: int| 0 <= i < v@.len() implies (#[trigger] v@[i]).bucket@ == bucket by {
            assert(v@.map_values(|x: DefaultObjectAccessControl| x@)[i] == v@[i]@);
            assert(items.map_values(|x: Json| of(x)->0)[i] == of(items[i])->0);
            assert(of(items[i]) is Some);
        }
    }
}

/// An entry sent in an update, read back from a reply whose body is the body that was
/// sent, is the entry that was sent, member for member. The sent body reads as the entry
/// wherever the entity's text form reads back as itself (`update_request`).
pub proof fn lemma_update_read_back(
    sent: DefaultObjectAccessControl,
    request: Request,
    reply: Seq<char>,
    read: Result<DefaultObjectAccessControl>,
)
    requires
        request.body matches Some(b) && field(b, "error"@) is None && default_acl_of(b, sent.bucket@) == Some(sent@),
        request.body matches Some(b) && parsed_json(reply) == Some(b),
        record_outcome(reply, read, |j: Json| default_acl_of(j, sent.bucket@), |x: DefaultObjectAccessControl| x@),
    ensures
        read matches Ok(x) && x@ == sent@,
{
}

} // verus!
